//! Reconciliation of on-chain payment events against the order store.
//!
//! The event source is polled by the caller; this module decides what each
//! page means. A record names an order through its reference id, which may
//! arrive as text or as the bytes of that text. Records that do not decode
//! are dropped; each decoded one is applied as one guarded paid transition.
use crate::order::{mark_paid_outcome, status_advances, Order, OrderBook};
use vstd::prelude::*;
use vstd::utf8::{decode_utf8, valid_utf8};

verus! {

/// Number of events asked for in one page.
pub const PAGE_SIZE: u64 = 5;

/// Pause between two polls of the event source, in milliseconds.
pub const POLL_INTERVAL_MILLIS: u64 = 2000;

/// The reference id of a payment event, in either encoding the source uses.
#[derive(Debug)]
pub enum RefIdField {
    Text(String),
    /// The bytes of the text, one JSON number each.
    Bytes(Vec<u64>),
}

/// One record of a page, reduced to what reconciliation reads: the reference
/// id of its payload, absent where the record has no payload or no such field.
#[derive(Debug)]
pub struct RawEvent {
    pub ref_id: Option<RefIdField>,
}

/// A decoded payment event: the order it pays for.
#[derive(PartialEq, Eq, Structural, Clone, Copy, Debug)]
pub struct PaymentEvent {
    pub order_id: u128,
}

/// Position in the event stream, as handed out by the source.
#[derive(Debug)]
pub struct EventCursor {
    pub tx_digest: String,
    pub event_seq: String,
}

/// Result of `uuid::Uuid::parse_str` on a text, as a 128-bit value.
pub uninterp spec fn uuid_value_of(s: Seq<char>) -> Option<u128>;

/// Relies on `uuid::Uuid::parse_str`: the parsed identifier, depending on the
/// text alone; an empty text has the wrong length for every accepted form.
#[verifier::external_body]
fn parse_uuid(s: &str) -> (r: Option<u128>)
    ensures
        r == uuid_value_of(s@),
        s@.len() == 0 ==> r is None,
{
    uuid::Uuid::parse_str(s).ok().map(|u| u.as_u128())
}

/// Relies on `String::from_utf8`: it accepts exactly the well-formed UTF-8
/// sequences and yields the characters they encode.
#[verifier::external_body]
pub(crate) fn string_from_utf8(bytes: Vec<u8>) -> (r: Option<String>)
    ensures
        match r {
            Some(s) => valid_utf8(bytes@) && s@ == decode_utf8(bytes@),
            None => !valid_utf8(bytes@),
        },
{
    String::from_utf8(bytes).ok()
}

pub open spec fn all_bytes(b: Seq<u64>) -> bool {
    forall|i: int| 0 <= i < b.len() ==> #[trigger] b[i] <= 255
}

pub open spec fn as_bytes(b: Seq<u64>) -> Seq<u8> {
    b.map_values(|x: u64| x as u8)
}

/// The text a reference id stands for: the text itself, or the UTF-8 text
/// whose bytes were given.
pub open spec fn ref_id_text(f: RefIdField) -> Option<Seq<char>> {
    match f {
        RefIdField::Text(s) => Some(s@),
        RefIdField::Bytes(b) => if all_bytes(b@) && valid_utf8(as_bytes(b@)) {
            Some(decode_utf8(as_bytes(b@)))
        } else {
            None
        },
    }
}

/// The payment event a record decodes to, if any.
pub open spec fn decoded_event(e: RawEvent) -> Option<PaymentEvent> {
    match e.ref_id {
        None => None,
        Some(f) => match ref_id_text(f) {
            None => None,
            Some(t) => match uuid_value_of(t) {
                None => None,
                Some(id) => Some(PaymentEvent { order_id: id }),
            },
        },
    }
}

/// The order ids that a page pays for, in page order, skipping records that
/// do not decode.
pub open spec fn payment_targets(records: Seq<RawEvent>) -> Seq<u128>
    decreases records.len(),
{
    if records.len() == 0 {
        seq![]
    } else {
        let rest = payment_targets(records.drop_last());
        match decoded_event(records.last()) {
            Some(ev) => rest.push(ev.order_id),
            None => rest,
        }
    }
}

/// The store after the paid transition was applied for each id in turn, and
/// the number of orders that it moved to `Paid`.
pub open spec fn apply_all(m: Map<u128, Order>, ids: Seq<u128>) -> (Map<u128, Order>, nat)
    decreases ids.len(),
{
    if ids.len() == 0 {
        (m, 0)
    } else {
        let (before, n) = apply_all(m, ids.drop_last());
        let (after, rows) = mark_paid_outcome(before, ids.last());
        (after, n + rows as nat)
    }
}

/// The reference id as the text it carries.
pub fn parse_ref_id(input: &str) -> (r: String)
    ensures
        r@ == input@,
{
    input.to_string()
}

/// The UTF-8 text whose bytes are given, one number per byte.
fn text_of_bytes(b: &Vec<u64>) -> (r: Option<String>)
    ensures
        r is Some <==> all_bytes(b@) && valid_utf8(as_bytes(b@)),
        r is Some ==> r->Some_0@ == decode_utf8(as_bytes(b@)),
{
    let mut bytes: Vec<u8> = Vec::new();
    let mut i: usize = 0;
    while i < b.len()
        invariant
            i <= b@.len(),
            bytes@ == as_bytes(b@.take(i as int)),
            forall|k: int| 0 <= k < i ==> #[trigger] b@[k] <= 255,
        decreases b@.len() - i,
    {
        if b[i] > 255 {
            assert(!all_bytes(b@)) by {
                assert(b@[i as int] > 255);
            }
            return None;
        }
        bytes.push(b[i] as u8);
        i = i + 1;
        assert(as_bytes(b@.take(i as int)) =~= as_bytes(b@.take(i - 1)).push(b@[i - 1] as u8));
    }
    assert(b@.take(b@.len() as int) =~= b@);
    string_from_utf8(bytes)
}

/// Brings both encodings of a reference id to one text.
pub fn normalize_ref_id(f: &RefIdField) -> (r: Option<String>)
    ensures
        r is Some <==> ref_id_text(*f) is Some,
        r is Some ==> ref_id_text(*f) == Some(r->Some_0@),
{
    match f {
        RefIdField::Text(s) => Some(parse_ref_id(s.as_str())),
        RefIdField::Bytes(b) => text_of_bytes(b),
    }
}

/// Decodes one record; `None` for a record without a usable reference id.
pub fn parse_payment_event(e: &RawEvent) -> (r: Option<PaymentEvent>)
    ensures
        r == decoded_event(*e),
{
    match &e.ref_id {
        None => None,
        Some(f) => match normalize_ref_id(f) {
            None => None,
            Some(text) => match parse_uuid(text.as_str()) {
                None => None,
                Some(id) => Some(PaymentEvent { order_id: id }),
            },
        },
    }
}

/// The order ids a page pays for; each record is decoded on its own.
pub fn plan_page(records: &Vec<RawEvent>) -> (r: Vec<u128>)
    ensures
        r@ == payment_targets(records@),
{
    let mut out: Vec<u128> = Vec::new();
    let mut i: usize = 0;
    while i < records.len()
        invariant
            i <= records@.len(),
            out@ == payment_targets(records@.take(i as int)),
        decreases records@.len() - i,
    {
        let ev = parse_payment_event(&records[i]);
        assert(records@.take(i + 1).drop_last() =~= records@.take(i as int));
        match ev {
            Some(p) => out.push(p.order_id),
            None => {},
        }
        i = i + 1;
    }
    assert(records@.take(records@.len() as int) =~= records@);
    out
}

/// Applies the paid transition for each id in order and counts the orders
/// that moved to `Paid`. Unknown and already paid ids are skipped silently.
pub fn apply_payments(book: &mut OrderBook, ids: &Vec<u128>) -> (paid: usize)
    ensures
        (final(book)@, paid as nat) == apply_all(old(book)@, ids@),
        status_advances(old(book)@, final(book)@),
{
    let mut paid: usize = 0;
    let mut i: usize = 0;
    while i < ids.len()
        invariant
            i <= ids@.len(),
            paid <= i,
            (book@, paid as nat) == apply_all(old(book)@, ids@.take(i as int)),
            status_advances(old(book)@, book@),
        decreases ids@.len() - i,
    {
        let rows = book.mark_paid_if_pending(ids[i]);
        assert(ids@.take(i + 1).drop_last() =~= ids@.take(i as int));
        paid = paid + rows as usize;
        i = i + 1;
    }
    assert(ids@.take(ids@.len() as int) =~= ids@);
    paid
}

/// Decodes a page and applies it to the store; returns the orders paid.
pub fn reconcile_page(book: &mut OrderBook, records: &Vec<RawEvent>) -> (paid: usize)
    ensures
        (final(book)@, paid as nat) == apply_all(old(book)@, payment_targets(records@)),
        status_advances(old(book)@, final(book)@),
{
    let ids = plan_page(records);
    apply_payments(book, &ids)
}

/// Where the reconciler stands in its cycle `fetch -> apply -> sleep -> fetch`.
#[derive(PartialEq, Eq, Structural, Clone, Copy, Debug)]
pub enum Phase {
    Fetching,
    Applying,
    Sleeping,
    /// Shut down; no further fetch is asked for.
    Stopped,
}

/// What the caller reports back after carrying out the last action.
#[derive(Debug)]
pub enum ReconcileEvent {
    /// The pause is over.
    Woke,
    /// A page came back, with the position after its last event.
    PageFetched { records: Vec<RawEvent>, next_cursor: Option<EventCursor> },
    /// The source could not be reached or its answer could not be read.
    FetchFailed,
    /// Every update of the page has been issued.
    PageApplied,
    /// The process is asked to stop.
    Shutdown,
}

/// What the caller is to do next.
#[derive(Debug)]
pub enum ReconcileAction {
    /// Fetch one page after `Reconciler::cursor`, in the given order.
    Fetch { limit: u64, descending: bool },
    /// Issue the guarded paid transition for each id, in order.
    Apply(Vec<u128>),
    Sleep { millis: u64 },
    /// The event does not belong to the current phase; nothing to do.
    Wait,
    /// Leave the loop.
    Exit,
}

/// The decision part of the polling loop. The cursor moves only once a whole
/// page has been applied, so a failure before that repeats the page, which
/// the guarded update makes harmless.
#[derive(Debug)]
pub struct Reconciler {
    /// Position after the last page that was applied in full.
    pub cursor: Option<EventCursor>,
    /// Position after the page being applied.
    pub pending_cursor: Option<EventCursor>,
    pub phase: Phase,
    /// A shutdown arrived while a page was being applied.
    pub stop_requested: bool,
}

impl Reconciler {
    /// A reconciler at the start of the stream, waiting to be woken.
    pub fn new() -> (r: Reconciler)
        ensures
            r.cursor is None,
            r.pending_cursor is None,
            r.phase == Phase::Sleeping,
            !r.stop_requested,
    {
        Reconciler { cursor: None, pending_cursor: None, phase: Phase::Sleeping, stop_requested: false }
    }

    /// The next phase and action after `ev`. A page that is being applied is
    /// finished before a shutdown takes effect.
    pub fn step(&mut self, ev: ReconcileEvent) -> (action: ReconcileAction)
        ensures
            final(self).stop_requested == (old(self).stop_requested || (old(self).phase
                == Phase::Applying && ev is Shutdown)),
            match (old(self).phase, ev) {
                (Phase::Stopped, _) => {
                    &&& final(self).phase == Phase::Stopped
                    &&& final(self).cursor == old(self).cursor
                    &&& final(self).pending_cursor == old(self).pending_cursor
                    &&& action == ReconcileAction::Exit
                },
                (Phase::Applying, ReconcileEvent::Shutdown) => {
                    &&& final(self).phase == Phase::Applying
                    &&& final(self).cursor == old(self).cursor
                    &&& final(self).pending_cursor == old(self).pending_cursor
                    &&& action == ReconcileAction::Wait
                },
                (_, ReconcileEvent::Shutdown) => {
                    &&& final(self).phase == Phase::Stopped
                    &&& final(self).cursor == old(self).cursor
                    &&& final(self).pending_cursor is None
                    &&& action == ReconcileAction::Exit
                },
                (Phase::Sleeping, ReconcileEvent::Woke) => {
                    &&& final(self).phase == Phase::Fetching
                    &&& final(self).cursor == old(self).cursor
                    &&& final(self).pending_cursor == old(self).pending_cursor
                    &&& action == (ReconcileAction::Fetch { limit: PAGE_SIZE, descending: false })
                },
                (Phase::Fetching, ReconcileEvent::PageFetched { records, next_cursor }) => {
                    &&& final(self).phase == Phase::Applying
                    &&& final(self).cursor == old(self).cursor
                    &&& final(self).pending_cursor == next_cursor
                    &&& action is Apply
                    &&& action->Apply_0@ == payment_targets(records@)
                },
                (Phase::Fetching, ReconcileEvent::FetchFailed) => {
                    &&& final(self).phase == Phase::Sleeping
                    &&& final(self).cursor == old(self).cursor
                    &&& final(self).pending_cursor is None
                    &&& action == (ReconcileAction::Sleep { millis: POLL_INTERVAL_MILLIS })
                },
                (Phase::Applying, ReconcileEvent::PageApplied) => {
                    &&& final(self).cursor == (match old(self).pending_cursor {
                        Some(c) => Some(c),
                        None => old(self).cursor,
                    })
                    &&& final(self).pending_cursor is None
                    &&& if old(self).stop_requested {
                        final(self).phase == Phase::Stopped && action == ReconcileAction::Exit
                    } else {
                        final(self).phase == Phase::Sleeping && action == (ReconcileAction::Sleep {
                            millis: POLL_INTERVAL_MILLIS,
                        })
                    }
                },
                _ => {
                    &&& final(self).phase == old(self).phase
                    &&& final(self).cursor == old(self).cursor
                    &&& final(self).pending_cursor == old(self).pending_cursor
                    &&& action == ReconcileAction::Wait
                },
            },
    {
        match (self.phase, ev) {
            (Phase::Stopped, _) => ReconcileAction::Exit,
            (Phase::Applying, ReconcileEvent::Shutdown) => {
                self.stop_requested = true;
                ReconcileAction::Wait
            },
            (_, ReconcileEvent::Shutdown) => {
                self.phase = Phase::Stopped;
                self.pending_cursor = None;
                ReconcileAction::Exit
            },
            (Phase::Sleeping, ReconcileEvent::Woke) => {
                self.phase = Phase::Fetching;
                ReconcileAction::Fetch { limit: PAGE_SIZE, descending: false }
            },
            (Phase::Fetching, ReconcileEvent::PageFetched { records, next_cursor }) => {
                let ids = plan_page(&records);
                self.phase = Phase::Applying;
                self.pending_cursor = next_cursor;
                ReconcileAction::Apply(ids)
            },
            (Phase::Fetching, ReconcileEvent::FetchFailed) => {
                self.phase = Phase::Sleeping;
                self.pending_cursor = None;
                ReconcileAction::Sleep { millis: POLL_INTERVAL_MILLIS }
            },
            (Phase::Applying, ReconcileEvent::PageApplied) => {
                let next = self.pending_cursor.take();
                match next {
                    Some(c) => {
                        self.cursor = Some(c);
                    },
                    None => {},
                }
                if self.stop_requested {
                    self.phase = Phase::Stopped;
                    ReconcileAction::Exit
                } else {
                    self.phase = Phase::Sleeping;
                    ReconcileAction::Sleep { millis: POLL_INTERVAL_MILLIS }
                }
            },
            _ => ReconcileAction::Wait,
        }
    }
}

/// Indexing runs only when an on-chain package is configured; an empty id
/// and the placeholder `0x0` both mean that it is not.
pub open spec fn package_configured(p: Seq<char>) -> bool {
    p.len() != 0 && p != seq!['0', 'x', '0']
}

pub fn indexing_enabled(package_id: &Option<String>) -> (r: bool)
    ensures
        package_id is None ==> !r,
        package_id is Some ==> r == package_configured(package_id->Some_0@),
{
    match package_id {
        None => false,
        Some(p) => {
            proof {
                reveal_strlit("0x0");
            }
            let placeholder = "0x0".to_string();
            let empty = String::new();
            assert(placeholder@ =~= seq!['0', 'x', '0']);
            assert(p@.len() == 0 <==> p@ =~= empty@);
            !(*p == empty) && !(*p == placeholder)
        },
    }
}

} // verus!
