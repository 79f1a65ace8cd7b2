//! Header blocks for responses and push promises.
//!
//! The kernel's header representation keeps one value per known-header slot
//! (a fixed enumerable table indexed by a numeric id) plus a list of
//! name/value pairs for unknown headers. A known header supplied more than
//! once for the same slot is promoted into a "multiple values" side list
//! that preserves insertion order, because the slot itself can hold only
//! one value.

use vstd::prelude::*;
use vstd::pervasive::VecAdditionalExecFns;

use crate::codes::HEADER_WWW_AUTHENTICATE;
use crate::codes::REQUEST_HEADER_SLOTS;
use crate::codes::RESPONSE_HEADER_SLOTS;

verus! {

/// One header supplied by the caller: either a value for a known-header
/// slot, or an unknown header given by name.
pub enum HeaderEntry {
    Known { id: u16, value: Vec<u8> },
    Unknown { name: Vec<u8>, value: Vec<u8> },
}

/// Mathematical form of a supplied header.
pub enum EntryModel {
    Known { id: u16, value: Seq<u8> },
    Unknown { name: Seq<u8>, value: Seq<u8> },
}

impl View for HeaderEntry {
    type V = EntryModel;

    open spec fn view(&self) -> EntryModel {
        match self {
            HeaderEntry::Known { id, value } => EntryModel::Known { id: *id, value: value@ },
            HeaderEntry::Unknown { name, value } => EntryModel::Unknown {
                name: name@,
                value: value@,
            },
        }
    }
}

/// A known-header slot that collected more than one value. The values keep
/// the order in which they were supplied; `preserve_order` asks the kernel
/// not to reorder them on the wire.
pub struct MultiHeader {
    pub id: u16,
    pub preserve_order: bool,
    pub values: Vec<Vec<u8>>,
}

/// Mathematical form of a multi-value slot.
pub struct MultiModel {
    pub id: u16,
    pub preserve_order: bool,
    pub values: Seq<Seq<u8>>,
}

impl View for MultiHeader {
    type V = MultiModel;

    open spec fn view(&self) -> MultiModel {
        MultiModel {
            id: self.id,
            preserve_order: self.preserve_order,
            values: self.values@.map_values(|v: Vec<u8>| v@),
        }
    }
}

/// The encoded header block of a response: one value per known slot (an
/// empty value means the slot is unset), the promoted multi-value slots,
/// and the unknown headers in supplied order.
pub struct ResponseHeaders {
    pub known: Vec<Vec<u8>>,
    pub multiple: Vec<MultiHeader>,
    pub unknown: Vec<(Vec<u8>, Vec<u8>)>,
}

/// Mathematical form of an encoded response header block.
pub struct ResponseHeadersModel {
    pub known: Seq<Seq<u8>>,
    pub multiple: Seq<MultiModel>,
    pub unknown: Seq<(Seq<u8>, Seq<u8>)>,
}

impl View for ResponseHeaders {
    type V = ResponseHeadersModel;

    open spec fn view(&self) -> ResponseHeadersModel {
        ResponseHeadersModel {
            known: self.known@.map_values(|v: Vec<u8>| v@),
            multiple: self.multiple@.map_values(|m: MultiHeader| m@),
            unknown: self.unknown@.map_values(|p: (Vec<u8>, Vec<u8>)| (p.0@, p.1@)),
        }
    }
}

impl ResponseHeadersModel {
    /// The block always keeps exactly one (possibly empty) value per slot of
    /// the known-header table.
    pub open spec fn wf(self) -> bool {
        self.known.len() == RESPONSE_HEADER_SLOTS
    }
}

/// A known-header id must index into the response table.
pub open spec fn entry_in_table(e: EntryModel) -> bool {
    e matches EntryModel::Known { id, .. } ==> (id as int) < RESPONSE_HEADER_SLOTS
}

/// Every supplied entry indexes into the response table.
pub open spec fn entries_in_table(entries: Seq<EntryModel>) -> bool {
    forall|i: int| 0 <= i < entries.len() ==> entry_in_table(#[trigger] entries[i])
}

/// The empty block: every known slot unset, no multi-value slots, no
/// unknown headers.
pub open spec fn empty_response_headers() -> ResponseHeadersModel {
    ResponseHeadersModel {
        known: Seq::new(RESPONSE_HEADER_SLOTS as nat, |i: int| Seq::<u8>::empty()),
        multiple: Seq::empty(),
        unknown: Seq::empty(),
    }
}

/// One step of encoding. An unknown header is appended verbatim. A known
/// header extends the most recent multi-value slot when it has the same id;
/// otherwise an occupied slot is promoted into a fresh multi-value slot
/// holding the old value and the new one, in that order, and the slot is
/// cleared; otherwise the value lands in the slot.
pub open spec fn response_step(b: ResponseHeadersModel, e: EntryModel) -> ResponseHeadersModel
    recommends
        b.wf(),
        entry_in_table(e),
{
    match e {
        EntryModel::Unknown { name, value } => ResponseHeadersModel {
            known: b.known,
            multiple: b.multiple,
            unknown: b.unknown.push((name, value)),
        },
        EntryModel::Known { id, value } => {
            if b.multiple.len() > 0 && b.multiple.last().id == id {
                let last = b.multiple.last();
                ResponseHeadersModel {
                    known: b.known,
                    multiple: b.multiple.update(
                        b.multiple.len() - 1,
                        MultiModel {
                            id: last.id,
                            preserve_order: last.preserve_order,
                            values: last.values.push(value),
                        },
                    ),
                    unknown: b.unknown,
                }
            } else if b.known[id as int].len() > 0 {
                ResponseHeadersModel {
                    known: b.known.update(id as int, Seq::empty()),
                    multiple: b.multiple.push(
                        MultiModel {
                            id,
                            preserve_order: id == HEADER_WWW_AUTHENTICATE,
                            values: seq![b.known[id as int], value],
                        },
                    ),
                    unknown: b.unknown,
                }
            } else {
                ResponseHeadersModel {
                    known: b.known.update(id as int, value),
                    multiple: b.multiple,
                    unknown: b.unknown,
                }
            }
        },
    }
}

/// The block that encoding a whole entry list produces, starting from the
/// empty block and applying `response_step` left to right.
pub open spec fn response_encoding(entries: Seq<EntryModel>) -> ResponseHeadersModel
    decreases entries.len(),
{
    if entries.len() == 0 {
        empty_response_headers()
    } else {
        response_step(response_encoding(entries.drop_last()), entries.last())
    }
}

pub proof fn lemma_response_encoding_wf(entries: Seq<EntryModel>)
    requires
        entries_in_table(entries),
    ensures
        response_encoding(entries).wf(),
    decreases entries.len(),
{
    if entries.len() == 0 {
        assert(response_encoding(entries) == empty_response_headers());
    } else {
        assert forall|j: int| 0 <= j < entries.drop_last().len() implies entry_in_table(
            #[trigger] entries.drop_last()[j],
        ) by {
            assert(entries.drop_last()[j] == entries[j]);
        }
        lemma_response_encoding_wf(entries.drop_last());
        let b = response_encoding(entries.drop_last());
        let e = entries.last();
        assert(entry_in_table(entries[entries.len() - 1]));
        assert(response_encoding(entries) == response_step(b, e));
        match e {
            EntryModel::Unknown { .. } => {},
            EntryModel::Known { .. } => {
                assert(response_step(b, e).known.len() == b.known.len());
            },
        }
    }
}

/// Mathematical form of an entry list.
pub open spec fn entry_models(entries: Seq<HeaderEntry>) -> Seq<EntryModel> {
    entries.map_values(|e: HeaderEntry| e@)
}

/// The name/value pairs of the unknown headers among `entries`, in supplied
/// order.
pub open spec fn unknown_pairs(entries: Seq<EntryModel>) -> Seq<(Seq<u8>, Seq<u8>)>
    decreases entries.len(),
{
    if entries.len() == 0 {
        Seq::empty()
    } else {
        match entries.last() {
            EntryModel::Unknown { name, value } => unknown_pairs(entries.drop_last()).push(
                (name, value),
            ),
            EntryModel::Known { .. } => unknown_pairs(entries.drop_last()),
        }
    }
}

/// The values supplied for known slot `id` among `entries`, in supplied
/// order.
pub open spec fn known_values(entries: Seq<EntryModel>, id: u16) -> Seq<Seq<u8>>
    decreases entries.len(),
{
    if entries.len() == 0 {
        Seq::empty()
    } else {
        let prefix = known_values(entries.drop_last(), id);
        match entries.last() {
            EntryModel::Known { id: d, value } => if d == id {
                prefix.push(value)
            } else {
                prefix
            },
            EntryModel::Unknown { .. } => prefix,
        }
    }
}

/// No multi-value slot of the block has the given id.
pub open spec fn no_multi(b: ResponseHeadersModel, id: u16) -> bool {
    forall|j: int| 0 <= j < b.multiple.len() ==> (#[trigger] b.multiple[j]).id != id
}

/// Exactly one multi-value slot of the block has the given id, it holds
/// exactly the values `vs` in order, and it asks for order preservation
/// exactly for the `WWW-Authenticate` slot.
pub open spec fn promoted_once(b: ResponseHeadersModel, id: u16, vs: Seq<Seq<u8>>) -> bool {
    exists|j: int|
        0 <= j < b.multiple.len() && #[trigger] b.multiple[j] == (MultiModel {
            id,
            preserve_order: id == HEADER_WWW_AUTHENTICATE,
            values: vs,
        }) && forall|j2: int|
            0 <= j2 < b.multiple.len() && j2 != j ==> (#[trigger] b.multiple[j2]).id != id
}

pub proof fn lemma_in_table_drop_last(entries: Seq<EntryModel>)
    requires
        entries_in_table(entries),
        entries.len() > 0,
    ensures
        entries_in_table(entries.drop_last()),
        entry_in_table(entries.last()),
{
    assert forall|j: int| 0 <= j < entries.drop_last().len() implies entry_in_table(
        #[trigger] entries.drop_last()[j],
    ) by {
        assert(entries.drop_last()[j] == entries[j]);
    }
    assert(entries.last() == entries[entries.len() - 1]);
}

/// Unknown headers pass through encoding verbatim: the block's unknown list
/// is exactly the unknown entries' name/value pairs, in supplied order.
pub proof fn lemma_unknown_headers_verbatim(entries: Seq<EntryModel>)
    ensures
        response_encoding(entries).unknown == unknown_pairs(entries),
    decreases entries.len(),
{
    if entries.len() > 0 {
        lemma_unknown_headers_verbatim(entries.drop_last());
    }
}

/// How the slot for `id` evolves under encoding: with no supplied value the
/// slot is unset and no multi-value slot exists for it; with one supplied
/// value the slot holds it; with two supplied values, the first nonempty,
/// the pair has been promoted into exactly one multi-value slot that keeps
/// both values in supplied order, and the slot itself is cleared.
pub proof fn lemma_slot_evolution(entries: Seq<EntryModel>, id: u16)
    requires
        entries_in_table(entries),
        (id as int) < RESPONSE_HEADER_SLOTS,
    ensures
        known_values(entries, id).len() == 0 ==> response_encoding(entries).known[
            id as int
        ].len() == 0 && no_multi(response_encoding(entries), id),
        known_values(entries, id).len() == 1 ==> response_encoding(entries).known[id as int]
            == known_values(entries, id)[0] && no_multi(response_encoding(entries), id),
        known_values(entries, id).len() == 2 && known_values(entries, id)[0].len() > 0
            ==> response_encoding(entries).known[id as int].len() == 0 && promoted_once(
            response_encoding(entries),
            id,
            known_values(entries, id),
        ),
    decreases entries.len(),
{
    if entries.len() == 0 {
        assert(response_encoding(entries) == empty_response_headers());
        assert(empty_response_headers().known[id as int] == Seq::<u8>::empty());
    } else {
        lemma_in_table_drop_last(entries);
        lemma_slot_evolution(entries.drop_last(), id);
        lemma_response_encoding_wf(entries.drop_last());
        let b = response_encoding(entries.drop_last());
        let e = entries.last();
        let vs = known_values(entries.drop_last(), id);
        let b2 = response_encoding(entries);
        assert(b2 == response_step(b, e));
        match e {
            EntryModel::Unknown { .. } => {
                assert(b2.known == b.known && b2.multiple == b.multiple);
            },
            EntryModel::Known { id: d, value } => {
                if d == id {
                    if vs.len() == 0 {
                        // The slot is empty and no multi-value slot matches,
                        // so the value lands in the slot.
                        if b.multiple.len() > 0 {
                            assert(b.multiple[b.multiple.len() - 1].id != id);
                        }
                        assert(b2.known[id as int] == value);
                    } else if vs.len() == 1 {
                        if b.multiple.len() > 0 {
                            assert(b.multiple[b.multiple.len() - 1].id != id);
                        }
                        if vs[0].len() > 0 {
                            // Promotion: the old value and the new one move
                            // into a fresh multi-value slot.
                            assert(b2.multiple.last() == (MultiModel {
                                id,
                                preserve_order: id == HEADER_WWW_AUTHENTICATE,
                                values: seq![vs[0], value],
                            }));
                            assert(seq![vs[0], value] =~= known_values(entries, id));
                            assert forall|j2: int|
                                0 <= j2 < b2.multiple.len() && j2 != b2.multiple.len() - 1 implies (
                            #[trigger] b2.multiple[j2]).id != id by {
                                assert(b2.multiple[j2] == b.multiple[j2]);
                            }
                            assert(promoted_once(b2, id, known_values(entries, id)));
                        }
                    }
                    // Three or more supplied values: nothing is claimed.
                } else {
                    // An entry for a different slot never touches this one.
                    assert(known_values(entries, id) == vs);
                    if b.multiple.len() > 0 && b.multiple.last().id == d {
                        let n = b.multiple.len() - 1;
                        assert(b2.multiple[n].id == d);
                        assert forall|j: int| 0 <= j < b2.multiple.len() && b.multiple[j].id != id
                            implies (#[trigger] b2.multiple[j]).id != id by {}
                        if vs.len() == 2 && vs[0].len() > 0 {
                            let j = choose|j: int|
                                0 <= j < b.multiple.len() && #[trigger] b.multiple[j] == (MultiModel {
                                    id,
                                    preserve_order: id == HEADER_WWW_AUTHENTICATE,
                                    values: vs,
                                }) && forall|j2: int|
                                    0 <= j2 < b.multiple.len() && j2 != j ==> (
                                    #[trigger] b.multiple[j2]).id != id;
                            assert(j != n);
                            assert(b2.multiple[j] == b.multiple[j]);
                            assert(promoted_once(b2, id, vs));
                        }
                    } else if b.known[d as int].len() > 0 {
                        assert(b2.known[id as int] == b.known[id as int]);
                        if vs.len() == 2 && vs[0].len() > 0 {
                            let j = choose|j: int|
                                0 <= j < b.multiple.len() && #[trigger] b.multiple[j] == (MultiModel {
                                    id,
                                    preserve_order: id == HEADER_WWW_AUTHENTICATE,
                                    values: vs,
                                }) && forall|j2: int|
                                    0 <= j2 < b.multiple.len() && j2 != j ==> (
                                    #[trigger] b.multiple[j2]).id != id;
                            assert(b2.multiple[j] == b.multiple[j]);
                            assert(b2.multiple.last().id == d);
                            assert(promoted_once(b2, id, vs));
                        }
                    } else {
                        assert(b2.known[id as int] == b.known[id as int]);
                    }
                }
            },
        }
    }
}

/// A known header supplied exactly once is delivered in its slot, verbatim,
/// and no multi-value slot exists for its id.
pub proof fn lemma_known_header_single(entries: Seq<EntryModel>, id: u16)
    requires
        entries_in_table(entries),
        (id as int) < RESPONSE_HEADER_SLOTS,
        known_values(entries, id).len() == 1,
    ensures
        response_encoding(entries).known[id as int] == known_values(entries, id)[0],
        no_multi(response_encoding(entries), id),
{
    lemma_slot_evolution(entries, id);
}

/// A known header supplied twice for the same slot, the first value
/// nonempty, is delivered as one multi-value slot that preserves the call
/// order of the two values; the slot itself is left unset.
pub proof fn lemma_known_header_pair(entries: Seq<EntryModel>, id: u16)
    requires
        entries_in_table(entries),
        (id as int) < RESPONSE_HEADER_SLOTS,
        known_values(entries, id).len() == 2,
        known_values(entries, id)[0].len() > 0,
    ensures
        response_encoding(entries).known[id as int].len() == 0,
        promoted_once(response_encoding(entries), id, known_values(entries, id)),
{
    lemma_slot_evolution(entries, id);
}

impl ResponseHeaders {
    /// A fresh block with every known slot unset.
    pub fn new() -> (b: ResponseHeaders)
        ensures
            b@ == empty_response_headers(),
            b@.wf(),
    {
        let mut known: Vec<Vec<u8>> = Vec::new();
        let mut i: usize = 0;
        while i < RESPONSE_HEADER_SLOTS
            invariant
                i <= RESPONSE_HEADER_SLOTS,
                known@.len() == i,
                forall|j: int| 0 <= j < i ==> #[trigger] known@[j]@ == Seq::<u8>::empty(),
            decreases RESPONSE_HEADER_SLOTS - i,
        {
            known.push(Vec::new());
            i = i + 1;
        }
        let b = ResponseHeaders { known, multiple: Vec::new(), unknown: Vec::new() };
        proof {
            assert(b@.known =~= empty_response_headers().known);
            assert(b@.multiple =~= empty_response_headers().multiple);
            assert(b@.unknown =~= empty_response_headers().unknown);
        }
        b
    }

    /// Applies one supplied header to the block, exactly as `response_step`
    /// describes.
    pub fn apply(&mut self, entry: HeaderEntry)
        requires
            old(self)@.wf(),
            entry_in_table(entry@),
        ensures
            final(self)@ == response_step(old(self)@, entry@),
            final(self)@.wf(),
    {
        let ghost pre = self@;
        let ghost ev = entry@;
        match entry {
            HeaderEntry::Unknown { name, value } => {
                self.unknown.push((name, value));
                proof {
                    assert(self@.unknown =~= response_step(pre, ev).unknown);
                    assert(self@ == response_step(pre, ev));
                }
            },
            HeaderEntry::Known { id, value } => {
                let ghost vv = value@;
                let n = self.multiple.len();
                if n > 0 && self.multiple[n - 1].id == id {
                    let mut tail = match self.multiple.pop() {
                        Some(m) => m,
                        None => unreached(),
                    };
                    tail.values.push(value);
                    self.multiple.push(tail);
                    proof {
                        assert(tail@.values =~= pre.multiple.last().values.push(vv));
                        assert(self@.multiple =~= response_step(pre, ev).multiple);
                        assert(self@ == response_step(pre, ev));
                    }
                } else if self.known[id as usize].len() > 0 {
                    let mut previous: Vec<u8> = Vec::new();
                    self.known.set_and_swap(id as usize, &mut previous);
                    let mut values: Vec<Vec<u8>> = Vec::new();
                    values.push(previous);
                    values.push(value);
                    let slot = MultiHeader {
                        id,
                        preserve_order: id == HEADER_WWW_AUTHENTICATE,
                        values,
                    };
                    proof {
                        assert(slot@.values =~= seq![pre.known[id as int], vv]);
                    }
                    self.multiple.push(slot);
                    proof {
                        assert(self@.known =~= response_step(pre, ev).known);
                        assert(self@.multiple =~= response_step(pre, ev).multiple);
                        assert(self@ == response_step(pre, ev));
                    }
                } else {
                    self.known.set(id as usize, value);
                    proof {
                        assert(self@.known =~= response_step(pre, ev).known);
                        assert(self@ == response_step(pre, ev));
                    }
                }
            },
        }
    }
}

/// Copies a byte string.
pub fn clone_bytes(v: &Vec<u8>) -> (r: Vec<u8>)
    ensures
        r@ == v@,
{
    let mut r: Vec<u8> = Vec::new();
    let mut i: usize = 0;
    while i < v.len()
        invariant
            i <= v@.len(),
            r@ == v@.take(i as int),
        decreases v@.len() - i,
    {
        r.push(v[i]);
        proof {
            assert(r@ =~= v@.take(i + 1));
        }
        i = i + 1;
    }
    proof {
        assert(v@.take(v@.len() as int) =~= v@);
    }
    r
}

/// Copies a supplied header.
fn clone_entry(e: &HeaderEntry) -> (r: HeaderEntry)
    ensures
        r@ == e@,
{
    match e {
        HeaderEntry::Known { id, value } => HeaderEntry::Known {
            id: *id,
            value: clone_bytes(value),
        },
        HeaderEntry::Unknown { name, value } => HeaderEntry::Unknown {
            name: clone_bytes(name),
            value: clone_bytes(value),
        },
    }
}

/// Encodes a supplied header list into a response header block. Each
/// known-header id is checked against the table size at this boundary:
/// a list with an out-of-table id is rejected whole.
pub fn build_response_headers(entries: &Vec<HeaderEntry>) -> (r: Option<ResponseHeaders>)
    ensures
        r matches Some(b) ==> b@ == response_encoding(entry_models(entries@)),
        r is Some <==> entries_in_table(entry_models(entries@)),
{
    let ghost all = entry_models(entries@);
    let mut block = ResponseHeaders::new();
    let mut i: usize = 0;
    proof {
        assert(all.take(0) =~= Seq::<EntryModel>::empty());
    }
    while i < entries.len()
        invariant
            i <= entries@.len(),
            all == entry_models(entries@),
            entries_in_table(all.take(i as int)),
            block@.wf(),
            block@ == response_encoding(all.take(i as int)),
        decreases entries@.len() - i,
    {
        let entry = clone_entry(&entries[i]);
        proof {
            assert(entry@ == all[i as int]);
        }
        match &entry {
            HeaderEntry::Known { id, .. } => {
                if *id as usize >= RESPONSE_HEADER_SLOTS {
                    proof {
                        assert(!entry_in_table(all[i as int]));
                        assert(!entries_in_table(all));
                    }
                    return None;
                }
            },
            HeaderEntry::Unknown { .. } => {},
        }
        block.apply(entry);
        proof {
            assert(all.take(i + 1).drop_last() =~= all.take(i as int));
            assert(all.take(i + 1).last() == all[i as int]);
            assert(forall|j: int| 0 <= j < i + 1 ==> entry_in_table(
                #[trigger] all.take(i + 1)[j],
            ));
        }
        i = i + 1;
    }
    proof {
        assert(all.take(entries@.len() as int) =~= all);
    }
    Some(block)
}

/// A response descriptor: status line, protocol version, reason phrase and
/// the encoded header block.
pub struct Response {
    pub status: u16,
    pub major: u16,
    pub minor: u16,
    pub reason: Vec<u8>,
    pub headers: ResponseHeaders,
}

/// Builds a response descriptor from its status line parts and the
/// supplied headers; a header list with an out-of-table id is rejected
/// whole.
pub fn build_response(
    status: u16,
    major: u16,
    minor: u16,
    reason: &Vec<u8>,
    entries: &Vec<HeaderEntry>,
) -> (r: Option<Response>)
    ensures
        r matches Some(resp) ==> resp.status == status && resp.major == major && resp.minor
            == minor && resp.reason@ == reason@ && resp.headers@ == response_encoding(
            entry_models(entries@),
        ),
        r is Some <==> entries_in_table(entry_models(entries@)),
{
    match build_response_headers(entries) {
        Some(headers) => Some(
            Response { status, major, minor, reason: clone_bytes(reason), headers },
        ),
        None => None,
    }
}

/// The header block of a push promise. A push promise declares a synthetic
/// request, so its block uses the request table; a known slot supplied more
/// than once simply keeps the last value, and unknown headers are appended
/// in supplied order.
pub struct PushHeaders {
    pub known: Vec<Vec<u8>>,
    pub unknown: Vec<(Vec<u8>, Vec<u8>)>,
}

/// Mathematical form of a push-promise header block.
pub struct PushHeadersModel {
    pub known: Seq<Seq<u8>>,
    pub unknown: Seq<(Seq<u8>, Seq<u8>)>,
}

impl View for PushHeaders {
    type V = PushHeadersModel;

    open spec fn view(&self) -> PushHeadersModel {
        PushHeadersModel {
            known: self.known@.map_values(|v: Vec<u8>| v@),
            unknown: self.unknown@.map_values(|p: (Vec<u8>, Vec<u8>)| (p.0@, p.1@)),
        }
    }
}

/// A known-header id must index into the request table.
pub open spec fn entry_in_request_table(e: EntryModel) -> bool {
    e matches EntryModel::Known { id, .. } ==> (id as int) < REQUEST_HEADER_SLOTS
}

/// Every supplied entry indexes into the request table.
pub open spec fn entries_in_request_table(entries: Seq<EntryModel>) -> bool {
    forall|i: int| 0 <= i < entries.len() ==> entry_in_request_table(#[trigger] entries[i])
}

/// The empty push-promise block.
pub open spec fn empty_push_headers() -> PushHeadersModel {
    PushHeadersModel {
        known: Seq::new(REQUEST_HEADER_SLOTS as nat, |i: int| Seq::<u8>::empty()),
        unknown: Seq::empty(),
    }
}

/// One step of building a push-promise block: a known header overwrites its
/// slot, an unknown header is appended verbatim.
pub open spec fn push_step(b: PushHeadersModel, e: EntryModel) -> PushHeadersModel
    recommends
        entry_in_request_table(e),
{
    match e {
        EntryModel::Known { id, value } => PushHeadersModel {
            known: b.known.update(id as int, value),
            unknown: b.unknown,
        },
        EntryModel::Unknown { name, value } => PushHeadersModel {
            known: b.known,
            unknown: b.unknown.push((name, value)),
        },
    }
}

/// The push-promise block that a whole entry list produces.
pub open spec fn push_encoding(entries: Seq<EntryModel>) -> PushHeadersModel
    decreases entries.len(),
{
    if entries.len() == 0 {
        empty_push_headers()
    } else {
        push_step(push_encoding(entries.drop_last()), entries.last())
    }
}

/// Builds the header block of a push promise. Each known-header id is
/// checked against the request table's size at this boundary.
pub fn build_push_headers(entries: &Vec<HeaderEntry>) -> (r: Option<PushHeaders>)
    ensures
        r matches Some(b) ==> b@ == push_encoding(entry_models(entries@)),
        r is Some <==> entries_in_request_table(entry_models(entries@)),
{
    let ghost all = entry_models(entries@);
    let mut known: Vec<Vec<u8>> = Vec::new();
    let mut j: usize = 0;
    while j < REQUEST_HEADER_SLOTS
        invariant
            j <= REQUEST_HEADER_SLOTS,
            known@.len() == j,
            forall|t: int| 0 <= t < j ==> #[trigger] known@[t]@ == Seq::<u8>::empty(),
        decreases REQUEST_HEADER_SLOTS - j,
    {
        known.push(Vec::new());
        j = j + 1;
    }
    let mut block = PushHeaders { known, unknown: Vec::new() };
    proof {
        assert(block@.known =~= empty_push_headers().known);
        assert(block@.unknown =~= empty_push_headers().unknown);
        assert(all.take(0) =~= Seq::<EntryModel>::empty());
    }
    let mut i: usize = 0;
    while i < entries.len()
        invariant
            i <= entries@.len(),
            all == entry_models(entries@),
            entries_in_request_table(all.take(i as int)),
            block@.known.len() == REQUEST_HEADER_SLOTS,
            block@ == push_encoding(all.take(i as int)),
        decreases entries@.len() - i,
    {
        let ghost pre = block@;
        proof {
            assert(entries@[i as int]@ == all[i as int]);
        }
        match &entries[i] {
            HeaderEntry::Known { id, value } => {
                if *id as usize >= REQUEST_HEADER_SLOTS {
                    proof {
                        assert(!entry_in_request_table(all[i as int]));
                        assert(!entries_in_request_table(all));
                    }
                    return None;
                }
                block.known.set(*id as usize, clone_bytes(value));
                proof {
                    assert(block@.known =~= push_step(pre, all[i as int]).known);
                }
            },
            HeaderEntry::Unknown { name, value } => {
                block.unknown.push((clone_bytes(name), clone_bytes(value)));
                proof {
                    assert(block@.unknown =~= push_step(pre, all[i as int]).unknown);
                }
            },
        }
        proof {
            assert(block@ == push_step(pre, all[i as int]));
            assert(all.take(i + 1).drop_last() =~= all.take(i as int));
            assert(all.take(i + 1).last() == all[i as int]);
            assert(push_encoding(all.take(i + 1)) == push_step(pre, all[i as int]));
            assert(forall|t: int| 0 <= t < i + 1 ==> entry_in_request_table(
                #[trigger] all.take(i + 1)[t],
            ));
        }
        i = i + 1;
    }
    proof {
        assert(all.take(entries@.len() as int) =~= all);
    }
    Some(block)
}

pub proof fn lemma_in_request_table_drop_last(entries: Seq<EntryModel>)
    requires
        entries_in_request_table(entries),
        entries.len() > 0,
    ensures
        entries_in_request_table(entries.drop_last()),
        entry_in_request_table(entries.last()),
{
    assert forall|j: int| 0 <= j < entries.drop_last().len() implies entry_in_request_table(
        #[trigger] entries.drop_last()[j],
    ) by {
        assert(entries.drop_last()[j] == entries[j]);
    }
    assert(entries.last() == entries[entries.len() - 1]);
}

pub proof fn lemma_push_encoding_wf(entries: Seq<EntryModel>)
    requires
        entries_in_request_table(entries),
    ensures
        push_encoding(entries).known.len() == REQUEST_HEADER_SLOTS,
    decreases entries.len(),
{
    if entries.len() > 0 {
        lemma_in_request_table_drop_last(entries);
        lemma_push_encoding_wf(entries.drop_last());
    }
}

/// A push promise's slot keeps the last value supplied for it.
pub proof fn lemma_push_last_write_wins(entries: Seq<EntryModel>, id: u16)
    requires
        entries_in_request_table(entries),
        (id as int) < REQUEST_HEADER_SLOTS,
        known_values(entries, id).len() > 0,
    ensures
        push_encoding(entries).known[id as int] == known_values(entries, id).last(),
    decreases entries.len(),
{
    assert(entries.len() > 0);
    lemma_in_request_table_drop_last(entries);
    lemma_push_encoding_wf(entries.drop_last());
    let e = entries.last();
    match e {
        EntryModel::Known { id: d, value } => {
            if d != id {
                assert(known_values(entries, id) == known_values(entries.drop_last(), id));
                lemma_push_last_write_wins(entries.drop_last(), id);
            } else {
                assert(push_encoding(entries).known[id as int] == value);
            }
        },
        EntryModel::Unknown { .. } => {
            assert(known_values(entries, id) == known_values(entries.drop_last(), id));
            lemma_push_last_write_wins(entries.drop_last(), id);
        },
    }
}

/// Unknown headers of a push promise pass through verbatim, in order.
pub proof fn lemma_push_unknown_verbatim(entries: Seq<EntryModel>)
    ensures
        push_encoding(entries).unknown == unknown_pairs(entries),
    decreases entries.len(),
{
    if entries.len() > 0 {
        lemma_push_unknown_verbatim(entries.drop_last());
    }
}

/// The query-string rule of a push promise: the first byte of the supplied
/// query (its `?` prefix) is skipped, and the rest is attached only when it
/// begins with something other than a terminator.
pub fn push_query(query: &Vec<u8>) -> (q: Option<Vec<u8>>)
    ensures
        query@.len() >= 2 && query@[1] != 0 ==> (q matches Some(tail) && tail@ == query@.skip(1)),
        !(query@.len() >= 2 && query@[1] != 0) ==> q is None,
{
    if query.len() >= 2 && query[1] != 0 {
        let mut tail: Vec<u8> = Vec::new();
        let mut i: usize = 1;
        while i < query.len()
            invariant
                1 <= i <= query@.len(),
                tail@ == query@.subrange(1, i as int),
            decreases query@.len() - i,
        {
            tail.push(query[i]);
            proof {
                assert(tail@ =~= query@.subrange(1, i + 1));
            }
            i = i + 1;
        }
        proof {
            assert(tail@ =~= query@.skip(1));
        }
        Some(tail)
    } else {
        None
    }
}

} // verus!
