//! The invoices awaiting settlement, by payment identifier.
use vstd::prelude::*;
use crate::invoice::InvoiceData;

verus! {

/// A payment identifier: a random token minted per payment attempt.
#[derive(Debug, Clone)]
pub struct PaymentId {
    pub bytes: Vec<u8>,
}

/// One tracked payment.
#[derive(Debug, Clone)]
pub struct PaymentEntry {
    pub id: PaymentId,
    pub invoice: InvoiceData,
}

/// The map that a list of entries stands for: a later entry for an
/// identifier replaces an earlier one.
pub open spec fn entries_map(s: Seq<PaymentEntry>) -> Map<Seq<u8>, InvoiceData>
    decreases s.len(),
{
    if s.len() == 0 {
        Map::empty()
    } else {
        entries_map(s.drop_last()).insert(s.last().id.bytes@, s.last().invoice)
    }
}

/// The entries of `s` whose identifier is not `id`, in order.
pub open spec fn entries_without(s: Seq<PaymentEntry>, id: Seq<u8>) -> Seq<PaymentEntry>
    decreases s.len(),
{
    if s.len() == 0 {
        s
    } else if s.last().id.bytes@ == id {
        entries_without(s.drop_last(), id)
    } else {
        entries_without(s.drop_last(), id).push(s.last())
    }
}

proof fn lemma_without_map(s: Seq<PaymentEntry>, id: Seq<u8>)
    ensures
        entries_map(entries_without(s, id)) == entries_map(s).remove(id),
    decreases s.len(),
{
    if s.len() == 0 {
        assert(entries_map(s).remove(id) =~= Map::empty());
    } else {
        lemma_without_map(s.drop_last(), id);
        let w = entries_without(s.drop_last(), id);
        if s.last().id.bytes@ == id {
            assert(entries_map(s).remove(id) =~= entries_map(s.drop_last()).remove(id));
        } else {
            assert(w.push(s.last()).drop_last() =~= w);
            assert(entries_map(w.push(s.last())) =~= entries_map(s).remove(id));
        }
    }
}

/// Whether two payment identifiers are the same bytes.
pub fn same_payment_id(a: &PaymentId, b: &PaymentId) -> (r: bool)
    ensures
        r == (a.bytes@ == b.bytes@),
{
    if a.bytes.len() != b.bytes.len() {
        return false;
    }
    let mut i: usize = 0;
    while i < a.bytes.len()
        invariant
            a.bytes@.len() == b.bytes@.len(),
            i <= a.bytes@.len(),
            forall|j: int| 0 <= j < i ==> a.bytes@[j] == b.bytes@[j],
        decreases a.bytes@.len() - i,
    {
        if a.bytes[i] != b.bytes[i] {
            return false;
        }
        i = i + 1;
    }
    proof {
        assert(a.bytes@ =~= b.bytes@);
    }
    true
}

/// The payments whose invoice is being settled.
#[derive(Debug)]
pub struct ActivePayments {
    entries: Vec<PaymentEntry>,
}

impl View for ActivePayments {
    type V = Map<Seq<u8>, InvoiceData>;

    closed spec fn view(&self) -> Map<Seq<u8>, InvoiceData> {
        entries_map(self.entries@)
    }
}

impl ActivePayments {
    /// No payment is tracked.
    pub fn new() -> (r: Self)
        ensures
            r@ == Map::<Seq<u8>, InvoiceData>::empty(),
    {
        ActivePayments { entries: Vec::new() }
    }

    /// Starts tracking `invoice` under `id`, replacing what was tracked under it.
    pub fn insert(&mut self, id: PaymentId, invoice: InvoiceData)
        ensures
            final(self)@ == old(self)@.insert(id.bytes@, invoice),
    {
        let ghost prev = self.entries@;
        self.entries.push(PaymentEntry { id, invoice });
        proof {
            assert(self.entries@.drop_last() =~= prev);
        }
    }

    /// Whether anything is tracked under `id`.
    pub fn contains(&self, id: &PaymentId) -> (r: bool)
        ensures
            r == self@.contains_key(id.bytes@),
    {
        let mut i: usize = 0;
        let mut found = false;
        while i < self.entries.len()
            invariant
                i <= self.entries@.len(),
                found == entries_map(self.entries@.take(i as int)).contains_key(id.bytes@),
            decreases self.entries@.len() - i,
        {
            proof {
                assert(self.entries@.take(i + 1).drop_last() =~= self.entries@.take(i as int));
            }
            if same_payment_id(&self.entries[i].id, id) {
                found = true;
            }
            i = i + 1;
        }
        proof {
            assert(self.entries@.take(self.entries@.len() as int) =~= self.entries@);
        }
        found
    }

    /// Whether no payment is tracked.
    pub fn is_empty(&self) -> (r: bool)
        ensures
            r == (self@ == Map::<Seq<u8>, InvoiceData>::empty()),
    {
        proof {
            lemma_map_empty(self.entries@);
        }
        self.entries.len() == 0
    }

    /// Stops tracking what was tracked under `id`.
    pub fn remove(&mut self, id: &PaymentId)
        ensures
            final(self)@ == old(self)@.remove(id.bytes@),
    {
        let ghost orig = self.entries@;
        let ghost mut k: int = 0;
        let mut i: usize = 0;
        while i < self.entries.len()
            invariant
                0 <= k <= orig.len(),
                i == entries_without(orig.take(k), id.bytes@).len(),
                self.entries@ == entries_without(orig.take(k), id.bytes@) + orig.subrange(k, orig.len() as int),
            decreases orig.len() - k,
        {
            proof {
                assert(self.entries@[i as int] == orig[k]);
                assert(orig.take(k + 1).drop_last() =~= orig.take(k));
                assert(orig.take(k + 1).last() == orig[k]);
            }
            if same_payment_id(&self.entries[i].id, id) {
                self.entries.remove(i);
                proof {
                    assert(self.entries@ =~= entries_without(orig.take(k + 1), id.bytes@) + orig.subrange(k + 1, orig.len() as int));
                }
            } else {
                i = i + 1;
                proof {
                    assert(self.entries@ =~= entries_without(orig.take(k + 1), id.bytes@) + orig.subrange(k + 1, orig.len() as int));
                }
            }
            proof {
                k = k + 1;
            }
        }
        proof {
            assert(k == orig.len());
            assert(orig.take(k) =~= orig);
            assert(self.entries@ =~= entries_without(orig, id.bytes@));
            lemma_without_map(orig, id.bytes@);
        }
    }
}

proof fn lemma_map_empty(s: Seq<PaymentEntry>)
    ensures
        (entries_map(s) == Map::<Seq<u8>, InvoiceData>::empty()) == (s.len() == 0),
{
    if s.len() > 0 {
        assert(entries_map(s).contains_key(s.last().id.bytes@));
    }
}

} // verus!
