use rand::Rng;
use vstd::prelude::*;

verus! {

/// The number of distinct keys and values that a benchmark draws from.
pub const KEY_SPACE: u32 = 10000;

/// The kinds of request in a benchmark transaction.
#[derive(Debug, Clone, Copy, PartialEq, Eq, Structural)]
pub enum Op {
    Get,
    Put,
    Delete,
}

/// The operation that a roll in `0..100` stands for: below the read share a
/// read, below the read and write shares together a write, else a removal.
pub open spec fn op_for(roll: nat, read_percentage: nat, write_percentage: nat) -> Op {
    if roll < read_percentage {
        Op::Get
    } else if roll < read_percentage + write_percentage {
        Op::Put
    } else {
        Op::Delete
    }
}

/// Whether some roll in `0..100` stands for `op`.
pub open spec fn op_drawable(op: Op, read_percentage: nat, write_percentage: nat) -> bool {
    exists|roll: nat| roll < 100 && op == #[trigger] op_for(roll, read_percentage, write_percentage)
}

/// Relies on `rand::Rng::gen_range` on the thread-local generator: a value in
/// `lo..hi`, which must not be empty.
#[verifier::external_body]
fn draw_in(lo: u32, hi: u32) -> (r: u32)
    requires
        lo < hi,
    ensures
        lo <= r < hi,
{
    rand::thread_rng().gen_range(lo..hi)
}

/// The operation that `roll` stands for, given the read and write shares in
/// percent.
pub fn classify_op(roll: u32, read_percentage: u8, write_percentage: u8) -> (r: Op)
    ensures
        r == op_for(roll as nat, read_percentage as nat, write_percentage as nat),
{
    if roll < read_percentage as u32 {
        Op::Get
    } else if roll < read_percentage as u32 + write_percentage as u32 {
        Op::Put
    } else {
        Op::Delete
    }
}

/// The transaction that a sequence of rolls stands for, one operation each.
pub fn transaction_from_rolls(rolls: &Vec<u32>, read_percentage: u8, write_percentage: u8) -> (r:
    Vec<Op>)
    ensures
        r@.len() == rolls@.len(),
        forall|i: int|
            0 <= i < r@.len() ==> #[trigger] r@[i] == op_for(
                rolls@[i] as nat,
                read_percentage as nat,
                write_percentage as nat,
            ),
{
    let mut ops: Vec<Op> = Vec::new();
    let mut i: usize = 0;
    while i < rolls.len()
        invariant
            i <= rolls@.len(),
            ops@.len() == i,
            forall|j: int|
                0 <= j < i ==> #[trigger] ops@[j] == op_for(
                    rolls@[j] as nat,
                    read_percentage as nat,
                    write_percentage as nat,
                ),
        decreases rolls@.len() - i,
    {
        ops.push(classify_op(rolls[i], read_percentage, write_percentage));
        i = i + 1;
    }
    ops
}

/// A random transaction of one to nine operations, each drawn by a roll in
/// `0..100` against the read and write shares.
pub fn random_transaction(read_percentage: u8, write_percentage: u8) -> (r: Vec<Op>)
    ensures
        1 <= r@.len() < 10,
        forall|i: int|
            0 <= i < r@.len() ==> op_drawable(
                #[trigger] r@[i],
                read_percentage as nat,
                write_percentage as nat,
            ),
{
    let count = draw_in(1, 10);
    let mut rolls: Vec<u32> = Vec::new();
    let mut i: u32 = 0;
    while i < count
        invariant
            i <= count,
            rolls@.len() == i,
            forall|j: int| 0 <= j < i ==> #[trigger] rolls@[j] < 100,
        decreases count - i,
    {
        rolls.push(draw_in(0, 100));
        i = i + 1;
    }
    let ops = transaction_from_rolls(&rolls, read_percentage, write_percentage);
    assert forall|i: int| 0 <= i < ops@.len() implies op_drawable(
        #[trigger] ops@[i],
        read_percentage as nat,
        write_percentage as nat,
    ) by {
        assert(ops@[i] == op_for(rolls@[i] as nat, read_percentage as nat, write_percentage as nat));
    }
    ops
}

/// One request of a benchmark: its kind, the number of its key, and for a
/// write the number of its value.
pub struct Request {
    pub op: Op,
    pub key_id: u32,
    pub value_id: u32,
}

/// Draws the key, and for a write the value, of a request of kind `op`.
pub fn plan_request(op: Op) -> (r: Request)
    ensures
        r.op == op,
        r.key_id < KEY_SPACE,
        r.value_id < KEY_SPACE,
        op != Op::Put ==> r.value_id == 0,
{
    let key_id = draw_in(0, KEY_SPACE);
    let value_id = if op == Op::Put {
        draw_in(0, KEY_SPACE)
    } else {
        0
    };
    Request { op, key_id, value_id }
}

/// Whether a read returned what the client last wrote: only a key that the
/// client holds a value for can be read correctly.
pub fn read_is_correct(expected: Option<&String>, actual: &String) -> (r: bool)
    ensures
        r == (expected is Some && expected->Some_0@ == actual@),
{
    match expected {
        Some(v) => v.eq(actual),
        None => false,
    }
}

/// The count of reads, and of those that returned the expected value.
pub struct ReadTally {
    correct: u64,
    total: u64,
}

impl ReadTally {
    #[verifier::type_invariant]
    spec fn inv(&self) -> bool {
        self.correct <= self.total
    }

    /// The number of reads that returned the expected value.
    pub closed spec fn correct_count(&self) -> nat {
        self.correct as nat
    }

    /// The number of reads.
    pub closed spec fn total_count(&self) -> nat {
        self.total as nat
    }

    /// A tally of no reads.
    pub fn new() -> (r: ReadTally)
        ensures
            r.correct_count() == 0,
            r.total_count() == 0,
    {
        ReadTally { correct: 0, total: 0 }
    }

    /// Counts one read, and counts it as correct when `correct` holds.
    pub fn record(&mut self, correct: bool)
        requires
            old(self).total_count() < u64::MAX,
        ensures
            final(self).total_count() == old(self).total_count() + 1,
            final(self).correct_count() == old(self).correct_count() + if correct {
                1nat
            } else {
                0nat
            },
    {
        proof {
            use_type_invariant(&*self);
        }
        self.total = self.total + 1;
        if correct {
            self.correct = self.correct + 1;
        }
    }

    /// The numbers of correct reads and of all reads.
    pub fn counts(&self) -> (r: (u64, u64))
        ensures
            r.0 == self.correct_count(),
            r.1 == self.total_count(),
            r.0 <= r.1,
    {
        proof {
            use_type_invariant(self);
        }
        (self.correct, self.total)
    }
}

} // verus!
