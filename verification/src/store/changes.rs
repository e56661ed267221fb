//! Changes to the hand-kept indexes.
//!
//! A change is decided on before the index is read. Once it was read, the
//! change says which writes follow: mostly one, and none where the index is as
//! it should be.

use vstd::prelude::*;
use vstd::utf8::encode_utf8;

use crate::messages::fields::{opt_view, views};
use crate::store::host::{HostWrite, HostWriteView, META_MAX_PREKEY_ID, STORE_META};
use crate::store::index::{
    add_id, add_keys, clear_prefix, drop_key, first_place, remove_keys, swap_removed, with_item,
    with_items, without_id, without_keys, IndexWrite,
};
use crate::store::json::{
    ids_json, json_ids, json_texts, read_ids, read_texts, texts_json, write_ids, write_texts,
    JsonFailure,
};
use crate::store::keys::unprefixed;
use crate::store::rows::{max_prekey_id, max_with, next_max_prekey_id, stored_max};
use crate::text::{decimal, decimal_string};

verus! {

/// What becomes of an index.
#[derive(Debug, Clone, PartialEq, Eq)]
pub enum IndexChange {
    /// Keys are added to a list, where they are new.
    Add {
        /// The index.
        meta: &'static str,
        /// The keys.
        keys: Vec<String>,
    },
    /// Keys are taken out of a list; it is written where it changed.
    Drop {
        /// The index.
        meta: &'static str,
        /// The keys.
        keys: Vec<String>,
    },
    /// A key is taken out of a list, which is written in any case.
    DropAlways {
        /// The index.
        meta: &'static str,
        /// The key.
        key: String,
    },
    /// A key is taken out of a list whose order does not matter.
    SwapOut {
        /// The index.
        meta: &'static str,
        /// The key.
        key: String,
    },
    /// Every key that starts alike is taken out of a list.
    ClearPrefix {
        /// The index.
        meta: &'static str,
        /// How the keys start.
        prefix: String,
    },
    /// A number is added to a list, where it is new.
    AddId {
        /// The index.
        meta: &'static str,
        /// The number.
        id: u32,
    },
    /// A number is taken out of a list, which is written in any case.
    DropId {
        /// The index.
        meta: &'static str,
        /// The number.
        id: u32,
    },
    /// The highest number on record is raised, where one of these is higher.
    RaiseMax {
        /// The numbers.
        ids: Vec<u32>,
    },
}

/// The values that an [`IndexChange`] carries.
#[verifier::ext_equal]
pub enum IndexChangeView {
    Add { meta: Seq<char>, keys: Seq<Seq<char>> },
    Drop { meta: Seq<char>, keys: Seq<Seq<char>> },
    DropAlways { meta: Seq<char>, key: Seq<char> },
    SwapOut { meta: Seq<char>, key: Seq<char> },
    ClearPrefix { meta: Seq<char>, prefix: Seq<char> },
    AddId { meta: Seq<char>, id: u32 },
    DropId { meta: Seq<char>, id: u32 },
    RaiseMax { ids: Seq<u32> },
}

impl View for IndexChange {
    type V = IndexChangeView;

    open spec fn view(&self) -> IndexChangeView {
        match *self {
            IndexChange::Add { meta, keys } => IndexChangeView::Add {
                meta: meta@,
                keys: views(keys@),
            },
            IndexChange::Drop { meta, keys } => IndexChangeView::Drop {
                meta: meta@,
                keys: views(keys@),
            },
            IndexChange::DropAlways { meta, key } => IndexChangeView::DropAlways {
                meta: meta@,
                key: key@,
            },
            IndexChange::SwapOut { meta, key } => IndexChangeView::SwapOut {
                meta: meta@,
                key: key@,
            },
            IndexChange::ClearPrefix { meta, prefix } => IndexChangeView::ClearPrefix {
                meta: meta@,
                prefix: prefix@,
            },
            IndexChange::AddId { meta, id } => IndexChangeView::AddId { meta: meta@, id },
            IndexChange::DropId { meta, id } => IndexChangeView::DropId { meta: meta@, id },
            IndexChange::RaiseMax { ids } => IndexChangeView::RaiseMax { ids: ids@ },
        }
    }
}

/// The list of an index: none is stored as long as it is empty.
pub open spec fn listed(stored: Option<Seq<u8>>) -> Option<Seq<Seq<char>>> {
    match stored {
        None => Some(Seq::empty()),
        Some(bytes) => json_texts(bytes),
    }
}

/// The numbers of an index.
pub open spec fn listed_ids(stored: Option<Seq<u8>>) -> Option<Seq<u32>> {
    match stored {
        None => Some(Seq::empty()),
        Some(bytes) => json_ids(bytes),
    }
}

/// Whether a list reads back as it was written.
pub open spec fn reads_back(list: Seq<Seq<char>>) -> bool {
    json_texts(texts_json(list)) == Some(list)
}

/// Whether a list of numbers reads back as it was written.
pub open spec fn ids_read_back(list: Seq<u32>) -> bool {
    json_ids(ids_json(list)) == Some(list)
}

/// The write of an index.
pub open spec fn index_put(meta: Seq<char>, list: Seq<Seq<char>>) -> HostWriteView {
    HostWriteView::Put { store: STORE_META@, key: meta, value: texts_json(list) }
}

/// The write of an index of numbers.
pub open spec fn ids_put(meta: Seq<char>, list: Seq<u32>) -> HostWriteView {
    HostWriteView::Put { store: STORE_META@, key: meta, value: ids_json(list) }
}

impl IndexChangeView {
    /// The row that has to be read first.
    pub open spec fn meta(self) -> Seq<char> {
        match self {
            IndexChangeView::Add { meta, .. } => meta,
            IndexChangeView::Drop { meta, .. } => meta,
            IndexChangeView::DropAlways { meta, .. } => meta,
            IndexChangeView::SwapOut { meta, .. } => meta,
            IndexChangeView::ClearPrefix { meta, .. } => meta,
            IndexChangeView::AddId { meta, .. } => meta,
            IndexChangeView::DropId { meta, .. } => meta,
            IndexChangeView::RaiseMax { .. } => META_MAX_PREKEY_ID@,
        }
    }

    /// The list of keys that comes of one.
    pub open spec fn changed(self, list: Seq<Seq<char>>) -> Seq<Seq<char>> {
        match self {
            IndexChangeView::Add { keys, .. } => with_items(list, keys),
            IndexChangeView::Drop { keys, .. } => list.filter(
                |k: Seq<char>| !keys.contains(k),
            ),
            IndexChangeView::DropAlways { key, .. } => list.filter(
                |k: Seq<char>| !seq![key].contains(k),
            ),
            IndexChangeView::SwapOut { key, .. } => match first_place(list, key) {
                Some(i) => swap_removed(list, i),
                None => list,
            },
            IndexChangeView::ClearPrefix { prefix, .. } => list.filter(
                |k: Seq<char>| unprefixed(k, prefix) is None,
            ),
            _ => list,
        }
    }

    /// Whether a list of keys is written anew: not where it stays as it is, and
    /// not where nothing is left of it and the row goes.
    pub open spec fn rewrites(self, list: Seq<Seq<char>>) -> bool {
        if self is DropAlways {
            true
        } else if self is ClearPrefix && self.changed(list).len() == 0 {
            false
        } else {
            self.changed(list).len() != list.len()
        }
    }

    /// Whether a list of numbers is written anew.
    pub open spec fn rewrites_ids(self, list: Seq<u32>) -> bool {
        self is DropId || self.changed_ids(list).len() != list.len()
    }

    /// The list of numbers that comes of one.
    pub open spec fn changed_ids(self, list: Seq<u32>) -> Seq<u32> {
        match self {
            IndexChangeView::AddId { id, .. } => with_item(list, id),
            IndexChangeView::DropId { id, .. } => list.filter(|n: u32| n != id),
            _ => list,
        }
    }

    /// The writes that follow, once the row was read; none can be named where
    /// it is no list.
    pub open spec fn writes(self, stored: Option<Seq<u8>>) -> Option<Seq<HostWriteView>> {
        match self {
            IndexChangeView::RaiseMax { ids } => Some(
                seq![
                    HostWriteView::Put {
                        store: STORE_META@,
                        key: META_MAX_PREKEY_ID@,
                        value: encode_utf8(decimal(max_with(ids, stored_max(stored)) as nat)),
                    },
                ],
            ),
            IndexChangeView::AddId { meta, .. } | IndexChangeView::DropId { meta, .. } => match listed_ids(
                stored,
            ) {
                None => None,
                Some(list) => if self.rewrites_ids(list) {
                    Some(seq![ids_put(meta, self.changed_ids(list))])
                } else {
                    Some(seq![])
                },
            },
            _ => match listed(stored) {
                None => None,
                Some(list) => if self.rewrites(list) {
                    Some(seq![index_put(self.meta(), self.changed(list))])
                } else if self.changed(list).len() != list.len() {
                    Some(seq![HostWriteView::Remove { store: STORE_META@, key: self.meta() }])
                } else {
                    Some(seq![])
                },
            },
        }
    }

    /// Whether what the writes put into the index reads back.
    pub open spec fn legible(self, stored: Option<Seq<u8>>) -> bool {
        match self {
            IndexChangeView::RaiseMax { .. } => true,
            IndexChangeView::AddId { .. } | IndexChangeView::DropId { .. } => match listed_ids(
                stored,
            ) {
                Some(list) => self.rewrites_ids(list) ==> ids_read_back(self.changed_ids(list)),
                None => true,
            },
            _ => match listed(stored) {
                Some(list) => self.rewrites(list) ==> reads_back(self.changed(list)),
                None => true,
            },
        }
    }
}

proof fn same_filter<T>(list: Seq<T>, f: spec_fn(T) -> bool, g: spec_fn(T) -> bool)
    requires
        forall|x: T| #[trigger] f(x) == #[trigger] g(x),
    ensures
        list.filter(f) == list.filter(g),
{
    assert(f =~= g);
}

proof fn first_place_is_one(list: Seq<Seq<char>>, key: Seq<char>)
    ensures
        first_place(list, key) matches Some(i) ==> 0 <= i < list.len() && list[i] == key,
        first_place(list, key) is None ==> !list.contains(key),
    decreases list.len(),
{
    if list.len() > 0 {
        first_place_is_one(list.drop_last(), key);
        if first_place(list, key) is None && list.contains(key) {
            let i = choose|i: int| 0 <= i < list.len() && list[i] == key;
            assert(list.drop_last()[i] == key);
        }
    }
}

fn index_list(stored: Option<&[u8]>, meta: &'static str) -> (res: Result<Vec<String>, JsonFailure>)
    ensures
        match (res, listed(opt_view(stored))) {
            (Ok(list), Some(m)) => views(list@) == m,
            (Err(e), None) => e.store@ == STORE_META@ && e.key@ == meta@,
            _ => false,
        },
{
    match stored {
        None => {
            let list: Vec<String> = Vec::new();
            assert(views(list@) =~= Seq::empty());
            Ok(list)
        },
        Some(bytes) => match read_texts(bytes) {
            Some(list) => Ok(list),
            None => Err(JsonFailure { store: STORE_META, key: meta.to_owned() }),
        },
    }
}

fn id_list(stored: Option<&[u8]>, meta: &'static str) -> (res: Result<Vec<u32>, JsonFailure>)
    ensures
        match (res, listed_ids(opt_view(stored))) {
            (Ok(list), Some(m)) => list@ == m,
            (Err(e), None) => e.store@ == STORE_META@ && e.key@ == meta@,
            _ => false,
        },
{
    match stored {
        None => Ok(Vec::new()),
        Some(bytes) => match read_ids(bytes) {
            Some(list) => Ok(list),
            None => Err(JsonFailure { store: STORE_META, key: meta.to_owned() }),
        },
    }
}

pub(crate) fn one(w: HostWrite) -> (out: Vec<HostWrite>)
    ensures
        views(out@) == seq![w@],
{
    let mut out: Vec<HostWrite> = Vec::new();
    out.push(w);
    assert(views(out@) =~= seq![w@]);
    out
}

fn none() -> (out: Vec<HostWrite>)
    ensures
        views(out@) == Seq::<HostWriteView>::empty(),
{
    let out: Vec<HostWrite> = Vec::new();
    assert(views(out@) =~= Seq::empty());
    out
}

fn put_list(meta: &'static str, list: &Vec<String>) -> (w: HostWrite)
    ensures
        w@ == index_put(meta@, views(list@)),
        reads_back(views(list@)),
{
    HostWrite::Put { store: STORE_META, key: meta.to_owned(), value: write_texts(list) }
}

fn put_ids(meta: &'static str, list: &Vec<u32>) -> (w: HostWrite)
    ensures
        w@ == ids_put(meta@, list@),
        ids_read_back(list@),
{
    HostWrite::Put { store: STORE_META, key: meta.to_owned(), value: write_ids(list) }
}

impl IndexChange {
    /// The row that has to be read first.
    pub fn meta(&self) -> (key: &'static str)
        ensures
            key@ == self@.meta(),
    {
        match self {
            IndexChange::Add { meta, .. } => meta,
            IndexChange::Drop { meta, .. } => meta,
            IndexChange::DropAlways { meta, .. } => meta,
            IndexChange::SwapOut { meta, .. } => meta,
            IndexChange::ClearPrefix { meta, .. } => meta,
            IndexChange::AddId { meta, .. } => meta,
            IndexChange::DropId { meta, .. } => meta,
            IndexChange::RaiseMax { .. } => META_MAX_PREKEY_ID,
        }
    }

    /// The writes that follow, once the row was read.
    pub fn writes(&self, stored: Option<&[u8]>) -> (res: Result<Vec<HostWrite>, JsonFailure>)
        ensures
            match (res, self@.writes(opt_view(stored))) {
                (Ok(w), Some(m)) => views(w@) == m && self@.legible(opt_view(stored)),
                (Err(e), None) => e.store@ == STORE_META@ && e.key@ == self@.meta(),
                _ => false,
            },
    {
        match self {
            IndexChange::Add { meta, keys } => {
                let mut list = index_list(stored, meta)?;
                if add_keys(&mut list, keys) {
                    Ok(one(put_list(meta, &list)))
                } else {
                    Ok(none())
                }
            },
            IndexChange::Drop { meta, keys } => {
                let list = index_list(stored, meta)?;
                proof {
                    same_filter(
                        views(list@),
                        |k: Seq<char>| !views(keys@).contains(k),
                        |k: Seq<char>| !self@->Drop_keys.contains(k),
                    );
                }
                match remove_keys(&list, keys) {
                    IndexWrite::Keep => Ok(none()),
                    IndexWrite::Rewrite(left) => Ok(one(put_list(meta, &left))),
                    IndexWrite::Delete => Ok(none()),
                }
            },
            IndexChange::DropAlways { meta, key } => {
                let list = index_list(stored, meta)?;
                let mut keys: Vec<String> = Vec::new();
                keys.push(key.clone());
                assert(views(keys@) =~= seq![key@]);
                let left = without_keys(&list, &keys);
                proof {
                    same_filter(
                        views(list@),
                        |k: Seq<char>| !views(keys@).contains(k),
                        |k: Seq<char>| !seq![key@].contains(k),
                    );
                }
                Ok(one(put_list(meta, &left)))
            },
            IndexChange::SwapOut { meta, key } => {
                let mut list = index_list(stored, meta)?;
                proof {
                    first_place_is_one(views(list@), key@);
                }
                if drop_key(&mut list, key) {
                    Ok(one(put_list(meta, &list)))
                } else {
                    Ok(none())
                }
            },
            IndexChange::ClearPrefix { meta, prefix } => {
                let list = index_list(stored, meta)?;
                match clear_prefix(&list, prefix.as_str()) {
                    IndexWrite::Keep => Ok(none()),
                    IndexWrite::Delete => Ok(
                        one(HostWrite::Remove { store: STORE_META, key: (*meta).to_owned() }),
                    ),
                    IndexWrite::Rewrite(left) => Ok(one(put_list(meta, &left))),
                }
            },
            IndexChange::AddId { meta, id } => {
                let mut list = id_list(stored, meta)?;
                if add_id(&mut list, *id) {
                    Ok(one(put_ids(meta, &list)))
                } else {
                    Ok(none())
                }
            },
            IndexChange::DropId { meta, id } => {
                let list = id_list(stored, meta)?;
                let left = without_id(&list, *id);
                Ok(one(put_ids(meta, &left)))
            },
            IndexChange::RaiseMax { ids } => {
                let max: u32 = next_max_prekey_id(ids, max_prekey_id(stored));
                let text = decimal_string(max as u64);
                let value = vstd::slice::slice_to_vec(text.as_str().as_bytes());
                Ok(
                    one(
                        HostWrite::Put {
                            store: STORE_META,
                            key: META_MAX_PREKEY_ID.to_owned(),
                            value,
                        },
                    ),
                )
            },
        }
    }
}

} // verus!
