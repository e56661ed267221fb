//! Opening a call: what is decided before the engine is built, and in which
//! order the opening context is applied to it.

use vstd::prelude::*;

use crate::engine::call::needs_opus_mlow_escape;
use crate::engine::neutral::{
    MediaAudioCodec, MediaAudioFormat, MediaSessionSpec, OpenCtx, OpenCtxView, OpenError,
    OpenErrorView,
};
use crate::engine::project::copy_bytes;
use crate::engine::spec::{ctx_of, spec_from_params, spec_of};
use crate::messages::fields::views;
use crate::messages::open::OpenParams;
use crate::session::SessionId;

verus! {

/// What an open is built from.
#[derive(Clone, PartialEq, Eq)]
pub struct OpenPlan {
    /// What the engine builds its session from.
    pub spec: MediaSessionSpec,
    /// What is applied to the engine before its first packet.
    pub ctx: OpenCtx,
    /// Whether encoded input goes through the MLOW escape.
    pub opus_mlow_escape: bool,
}

/// Decides what an open is built from. The call's identity is the session's:
/// the params carry no generation.
pub fn plan_open(session: SessionId, call_id: &str, params: OpenParams) -> (res: Result<
    OpenPlan,
    OpenError,
>)
    ensures
        match (res, spec_of(params@, call_id@, session.generation)) {
            (Ok(plan), Ok(spec)) => {
                &&& plan.spec@ == spec
                &&& plan.ctx@ == ctx_of(params@)
                &&& plan.opus_mlow_escape == (spec.audio.format
                    == MediaAudioFormat::opus_mlow_spec())
            },
            (Err(e), Err(m)) => e@ == OpenErrorView::Spec(m),
            _ => false,
        },
        res matches Ok(plan) ==> {
            &&& plan.spec.key.call_id@ == call_id@
            &&& plan.spec.key.generation == session.generation
            &&& plan.spec.self_lid@ == params.self_lid@
            &&& plan.spec.peer_lid@ == params.peer_lid@
            &&& plan.spec.call_key@ == params.call_key@
            &&& plan.spec.relay_token@ == params.relay_token@
            &&& plan.spec.auth_token@ == params.auth_token@
            &&& plan.ctx.muted == (params.muted != 0)
        },
        res matches Err(e) ==> e is Spec,
{
    match spec_from_params(params, call_id, session.generation) {
        Err(e) => Err(OpenError::Spec(e)),
        Ok((spec, ctx)) => {
            let opus_mlow_escape = needs_opus_mlow_escape(spec.audio.format);
            Ok(OpenPlan { spec, ctx, opus_mlow_escape })
        },
    }
}

/// One thing done to a fresh engine.
#[derive(Clone, PartialEq, Eq)]
pub enum OpenStep {
    /// Apply the pre-authenticated epoch.
    ApplyEpoch {
        /// Transaction id.
        transaction_id: u32,
        /// The key.
        epoch: Vec<u8>,
    },
    /// Adopt the codec that the caller selected.
    SwitchCodec(MediaAudioCodec),
}

/// [`OpenStep`] as values.
pub enum OpenStepView {
    ApplyEpoch { transaction_id: u32, epoch: Seq<u8> },
    SwitchCodec(MediaAudioCodec),
}

impl View for OpenStep {
    type V = OpenStepView;

    open spec fn view(&self) -> OpenStepView {
        match *self {
            OpenStep::ApplyEpoch { transaction_id, epoch } => OpenStepView::ApplyEpoch {
                transaction_id,
                epoch: epoch@,
            },
            OpenStep::SwitchCodec(codec) => OpenStepView::SwitchCodec(codec),
        }
    }
}

/// The steps that an opening context asks for: the epoch first, then the
/// codec.
pub open spec fn steps_of(ctx: OpenCtxView) -> Seq<OpenStepView> {
    let epoch = match ctx.epoch {
        Some((transaction_id, epoch)) => seq![OpenStepView::ApplyEpoch { transaction_id, epoch }],
        None => Seq::empty(),
    };
    match ctx.initial_codec {
        Some(codec) => epoch.push(OpenStepView::SwitchCodec(codec)),
        None => epoch,
    }
}

/// The steps that an opening context asks for, in order.
pub fn open_steps(ctx: &OpenCtx) -> (steps: Vec<OpenStep>)
    ensures
        views(steps@) == steps_of(ctx@),
        ctx.epoch matches Some((number, key)) ==> steps@.len() > 0 && (steps@[0]
            matches OpenStep::ApplyEpoch { transaction_id, epoch } && transaction_id == number
            && epoch@ == key@),
        ctx.initial_codec matches Some(codec) ==> steps@.len() > 0 && steps@.last()
            == OpenStep::SwitchCodec(codec),
{
    let mut steps: Vec<OpenStep> = Vec::new();
    match &ctx.epoch {
        Some((transaction_id, epoch)) => {
            steps.push(
                OpenStep::ApplyEpoch {
                    transaction_id: *transaction_id,
                    epoch: copy_bytes(epoch),
                },
            );
        },
        None => {},
    }
    let ghost before = steps@;
    match ctx.initial_codec {
        Some(codec) => {
            steps.push(OpenStep::SwitchCodec(codec));
        },
        None => {},
    }
    assert(views(steps@) =~= steps_of(ctx@));
    steps
}

/// What a refused step is reported as.
pub open spec fn step_refusal(step: OpenStepView, why: Seq<char>) -> OpenErrorView {
    OpenErrorView::Engine(
        match step {
            OpenStepView::ApplyEpoch { .. } => "pre-attach epoch refused: "@ + why,
            OpenStepView::SwitchCodec(_) => "initial codec refused: "@ + why,
        },
    )
}

/// Reports a step that the engine refused, with its reason.
pub fn step_refused(step: &OpenStep, why: &str) -> (e: OpenError)
    ensures
        e@ == step_refusal(step@, why@),
        e matches OpenError::Engine(said) && said@ == (if step is ApplyEpoch {
            "pre-attach epoch refused: "@
        } else {
            "initial codec refused: "@
        }) + why@,
{
    let mut s = match step {
        OpenStep::ApplyEpoch { .. } => "pre-attach epoch refused: ".to_owned(),
        OpenStep::SwitchCodec(_) => "initial codec refused: ".to_owned(),
    };
    s.push_str(why);
    OpenError::Engine(s)
}

} // verus!
