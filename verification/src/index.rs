//! The records that the index holds, and the index itself.

use crate::ids::{InscriptionId, OutPoint, SatPoint, Txid};
use crate::table::Table;
use vstd::prelude::*;

verus! {

/// What the chain recorded when an inscription was made.
#[derive(Clone, Copy, Debug, PartialEq, Eq)]
pub struct InscriptionEntry {
    pub fee: u64,
    pub height: u64,
    pub number: i64,
    pub sat: Option<u64>,
    pub timestamp: u32,
}

/// Whether content of `len` bytes has a text form whose length fits in a
/// machine word.
pub open spec fn body_len_fits(len: nat) -> bool {
    len / 3 < usize::MAX / 4
}

/// The content of an inscription. A body is held only if its text form fits
/// in memory.
#[derive(Debug, PartialEq, Eq)]
pub struct Inscription {
    body: Option<Vec<u8>>,
    content_type: Option<String>,
}

impl Inscription {
    #[verifier::type_invariant]
    spec fn body_fits(self) -> bool {
        self.body matches Some(b) ==> body_len_fits(b@.len())
    }

    /// The body's bytes, if there is a body.
    pub closed spec fn spec_body(&self) -> Option<Seq<u8>> {
        match self.body {
            Some(b) => Some(b@),
            None => None,
        }
    }

    /// The declared content type, if there is one.
    pub closed spec fn spec_content_type(&self) -> Option<Seq<char>> {
        match self.content_type {
            Some(t) => Some(t@),
            None => None,
        }
    }

    /// An inscription with the given body and content type; `None` where the
    /// body is too long for its text form to fit in memory.
    pub fn new(body: Option<Vec<u8>>, content_type: Option<String>) -> (r: Option<Inscription>)
        ensures
            r is Some <==> (body matches Some(b) ==> body_len_fits(b@.len())),
            r matches Some(i) ==> i.spec_body() == (match body {
                Some(b) => Some(b@),
                None => None,
            }) && i.spec_content_type() == (match content_type {
                Some(t) => Some(t@),
                None => None,
            }),
    {
        let fits = match &body {
            Some(b) => b.len() / 3 < usize::MAX / 4,
            None => true,
        };
        if fits {
            Some(Inscription { body, content_type })
        } else {
            None
        }
    }

    /// The body, if there is one.
    pub fn body(&self) -> (r: Option<&Vec<u8>>)
        ensures
            r is Some == self.spec_body() is Some,
            r matches Some(b) ==> self.spec_body() == Some(b@) && body_len_fits(b@.len()),
    {
        proof {
            use_type_invariant(self);
        }
        self.body.as_ref()
    }

    /// The content type, if one is declared.
    pub fn content_type(&self) -> (r: Option<&String>)
        ensures
            r is Some == self.spec_content_type() is Some,
            r matches Some(t) ==> self.spec_content_type() == Some(t@),
    {
        self.content_type.as_ref()
    }

    /// The body's length, if there is a body.
    pub fn content_length(&self) -> (r: Option<usize>)
        ensures
            r == (match self.spec_body() {
                Some(b) => Some(b.len() as usize),
                None => None,
            }),
    {
        match &self.body {
            Some(b) => Some(b.len()),
            None => None,
        }
    }
}

/// What a transaction output is, as far as contracts speak of it.
pub struct TxOutModel {
    pub value: u64,
    pub script_pubkey: Seq<u8>,
}

/// A transaction output: an amount under a locking script.
#[derive(Debug, PartialEq, Eq)]
pub struct TxOut {
    pub value: u64,
    pub script_pubkey: Vec<u8>,
}

impl View for TxOut {
    type V = TxOutModel;

    open spec fn view(&self) -> TxOutModel {
        TxOutModel { value: self.value, script_pubkey: self.script_pubkey@ }
    }
}

impl Clone for TxOut {
    fn clone(&self) -> (r: Self)
        ensures
            r@ == self@,
    {
        TxOut { value: self.value, script_pubkey: self.script_pubkey.clone() }
    }
}

impl TxOut {
    /// The output that stands for "no output": nothing under an empty script.
    pub fn empty() -> (r: TxOut)
        ensures
            r@ == (TxOutModel { value: 0, script_pubkey: Seq::empty() }),
    {
        TxOut { value: 0, script_pubkey: Vec::new() }
    }
}

/// A transaction, as far as its outputs go.
#[derive(Debug, PartialEq, Eq)]
pub struct Transaction {
    pub output: Vec<TxOut>,
}

/// The satoshis from `start` up to, not including, `end`.
#[derive(Clone, Copy, Debug, PartialEq, Eq)]
pub struct SatRange {
    pub start: u64,
    pub end: u64,
}

/// The number of satoshis in all of `ranges`.
pub open spec fn total_width(ranges: Seq<SatRange>) -> int
    decreases ranges.len(),
{
    if ranges.len() == 0 {
        0
    } else {
        total_width(ranges.drop_last()) + (ranges.last().end - ranges.last().start)
    }
}

/// Whether no range ends before it starts.
pub open spec fn ranges_ordered(ranges: Seq<SatRange>) -> bool {
    forall|i: int| 0 <= i < ranges.len() ==> ranges[i].start <= ranges[i].end
}

/// Whether `ranges` can be held: each is ordered, and together they hold no
/// more satoshis than an amount can say.
pub open spec fn ranges_valid(ranges: Seq<SatRange>) -> bool {
    ranges_ordered(ranges) && total_width(ranges) <= u64::MAX
}

/// Among ordered ranges, the first `k` hold no more than all of them.
pub proof fn lemma_total_width_grows(ranges: Seq<SatRange>, k: int)
    requires
        ranges_ordered(ranges),
        0 <= k <= ranges.len(),
    ensures
        0 <= total_width(ranges.take(k)) <= total_width(ranges),
    decreases ranges.len() - k,
{
    if k == ranges.len() {
        assert(ranges.take(k) =~= ranges);
        lemma_total_width_nonnegative(ranges);
    } else {
        lemma_total_width_grows(ranges, k + 1);
        assert(ranges.take(k + 1).drop_last() =~= ranges.take(k));
        lemma_total_width_nonnegative(ranges.take(k));
    }
}

/// Ordered ranges hold a non-negative number of satoshis.
pub proof fn lemma_total_width_nonnegative(ranges: Seq<SatRange>)
    requires
        ranges_ordered(ranges),
    ensures
        0 <= total_width(ranges),
    decreases ranges.len(),
{
    if ranges.len() > 0 {
        lemma_total_width_nonnegative(ranges.drop_last());
    }
}

/// The ranges that an output holds, known to be valid.
#[derive(Debug, PartialEq, Eq)]
pub struct SatRanges {
    ranges: Vec<SatRange>,
}

impl View for SatRanges {
    type V = Seq<SatRange>;

    closed spec fn view(&self) -> Seq<SatRange> {
        self.ranges@
    }
}

impl SatRanges {
    #[verifier::type_invariant]
    spec fn valid(self) -> bool {
        ranges_valid(self.ranges@)
    }

    /// Holds `ranges` if they are valid.
    pub fn new(ranges: Vec<SatRange>) -> (r: Option<SatRanges>)
        ensures
            r is Some <==> ranges_valid(ranges@),
            r matches Some(s) ==> s@ == ranges@,
    {
        let mut sum: u64 = 0;
        let mut i: usize = 0;
        assert(ranges@.take(0) =~= Seq::<SatRange>::empty());
        while i < ranges.len()
            invariant
                i <= ranges@.len(),
                ranges_ordered(ranges@.take(i as int)),
                sum == total_width(ranges@.take(i as int)),
            decreases ranges@.len() - i,
        {
            let range: SatRange = ranges[i];
            assert(ranges@.take(i as int + 1).drop_last() =~= ranges@.take(i as int));
            if range.start > range.end {
                return None;
            }
            let width: u64 = range.end - range.start;
            if width > u64::MAX - sum {
                proof {
                    if ranges_ordered(ranges@) {
                        lemma_total_width_grows(ranges@, i as int + 1);
                    }
                }
                return None;
            }
            sum = sum + width;
            i = i + 1;
        }
        assert(ranges@.take(i as int) =~= ranges@);
        Some(SatRanges { ranges })
    }

    /// The ranges, in the order given.
    pub fn ranges(&self) -> (r: &Vec<SatRange>)
        ensures
            r@ == self@,
            ranges_valid(r@),
    {
        proof {
            use_type_invariant(self);
        }
        &self.ranges
    }

    /// The number of satoshis in all ranges.
    pub fn width(&self) -> (r: u64)
        ensures
            r == total_width(self@),
    {
        proof {
            use_type_invariant(self);
        }
        let mut sum: u64 = 0;
        let mut i: usize = 0;
        assert(self.ranges@.take(0) =~= Seq::<SatRange>::empty());
        while i < self.ranges.len()
            invariant
                i <= self.ranges@.len(),
                ranges_valid(self.ranges@),
                sum == total_width(self.ranges@.take(i as int)),
            decreases self.ranges@.len() - i,
        {
            let range: SatRange = self.ranges[i];
            proof {
                assert(self.ranges@.take(i as int + 1).drop_last() =~= self.ranges@.take(i as int));
                lemma_total_width_grows(self.ranges@, i as int + 1);
            }
            sum = sum + (range.end - range.start);
            i = i + 1;
        }
        assert(self.ranges@.take(i as int) =~= self.ranges@);
        sum
    }
}

/// What the index knows of the satoshis of an output.
#[derive(Debug, PartialEq, Eq)]
pub enum List {
    /// The output is unspent and holds these ranges.
    Unspent(SatRanges),
    /// The output was spent.
    Spent,
}

/// A picture of chain state, table by table. Nothing here changes while a
/// request is answered.
pub struct Index {
    /// Whether satoshi ranges are tracked.
    pub sat_index: bool,
    /// Chain metadata by inscription.
    pub entries: Table<InscriptionId, InscriptionEntry>,
    /// Content by inscription.
    pub inscriptions: Table<InscriptionId, Inscription>,
    /// Current position by inscription.
    pub satpoints: Table<InscriptionId, SatPoint>,
    /// Transactions by id.
    pub transactions: Table<Txid, Transaction>,
    /// The inscriptions that sit on an output; no record means none.
    pub inscriptions_on_output: Table<OutPoint, Vec<InscriptionId>>,
    /// Satoshi ranges by output.
    pub sat_ranges: Table<OutPoint, List>,
    /// Current position by satoshi, for the satoshis that are tracked singly.
    pub rare_sats: Table<u64, SatPoint>,
    /// Block timestamp by height.
    pub block_times: Table<u64, i64>,
}

impl Index {
    /// An index that holds nothing.
    pub fn new(sat_index: bool) -> (r: Index)
        ensures
            r.sat_index == sat_index,
            r.entries@ == Map::<InscriptionId, InscriptionEntry>::empty(),
            r.inscriptions@ == Map::<InscriptionId, Inscription>::empty(),
            r.satpoints@ == Map::<InscriptionId, SatPoint>::empty(),
            r.transactions@ == Map::<Txid, Transaction>::empty(),
            r.inscriptions_on_output@ == Map::<OutPoint, Vec<InscriptionId>>::empty(),
            r.sat_ranges@ == Map::<OutPoint, List>::empty(),
            r.rare_sats@ == Map::<u64, SatPoint>::empty(),
            r.block_times@ == Map::<u64, i64>::empty(),
    {
        Index {
            sat_index,
            entries: Table::new(),
            inscriptions: Table::new(),
            satpoints: Table::new(),
            transactions: Table::new(),
            inscriptions_on_output: Table::new(),
            sat_ranges: Table::new(),
            rare_sats: Table::new(),
            block_times: Table::new(),
        }
    }
}

} // verus!
