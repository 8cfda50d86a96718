//! The randomness precompile: `random(bytes32)` answers a 32-byte subject
//! with the runtime's random seed for it and the block number the seed is
//! known from, both in EVM ABI words.
use vstd::prelude::*;
use crate::crypto::{keccak_256, keccak_256_digest};

verus! {

/// Why the precompile refuses a call.
#[derive(Clone, Copy, Debug, PartialEq, Eq, Structural)]
pub enum ExitError {
    /// The call needs more gas than it was given.
    OutOfGas,
    /// The input is shorter than a selector.
    SelectorOutOfBounds,
    /// The selector names no function of the precompile.
    UnknownSelector,
    /// The reading cursor would pass `usize::MAX`.
    CursorOverflow,
    /// The input ends before the 32-byte value being read.
    ValueOutOfBounds,
}

/// How the precompile succeeds.
#[derive(Clone, Copy, Debug, PartialEq, Eq, Structural)]
pub enum ExitSucceed {
    Returned,
}

/// `"random(bytes32)"`.
pub open spec fn random_signature() -> Seq<u8> {
    seq![114u8, 97, 110, 100, 111, 109, 40, 98, 121, 116, 101, 115, 51, 50, 41]
}

/// The selector of `random(bytes32)`: the first four bytes of the Keccak
/// digest of its signature.
pub open spec fn random_selector() -> Seq<u8> {
    keccak_256_digest(random_signature()).subrange(0, 4)
}

/// The 32-byte big-endian ABI word of a `u32`.
pub open spec fn u32_word(n: u32) -> Seq<u8> {
    Seq::new(28, |i: int| 0u8) + seq![
        (n / 0x1000000) as u8,
        (n / 0x10000 % 0x100) as u8,
        (n / 0x100 % 0x100) as u8,
        (n % 0x100) as u8,
    ]
}

/// The functions of the precompile.
#[derive(Clone, Copy, Debug, PartialEq, Eq, Structural)]
pub enum Action {
    /// `random(bytes32)`
    Random,
}

impl Action {
    /// The selector of the function.
    pub fn selector(&self) -> (s: [u8; 4])
        ensures
            s@ == random_selector(),
    {
        let signature: Vec<u8> = vec![
            114u8, 97, 110, 100, 111, 109, 40, 98, 121, 116, 101, 115, 51, 50, 41,
        ];
        assert(signature@ =~= random_signature());
        let digest = keccak_256(signature.as_slice());
        let s = [digest[0], digest[1], digest[2], digest[3]];
        assert(s@ =~= digest@.subrange(0, 4));
        s
    }

    /// The function that a selector names, if any.
    pub fn from_selector(selector: &[u8; 4]) -> (a: Option<Action>)
        ensures
            a is Some <==> selector@ == random_selector(),
            a matches Some(action) ==> action == Action::Random,
    {
        let random = Action::Random.selector();
        if crate::storage::bytes_eq(&random, selector) {
            Some(Action::Random)
        } else {
            None
        }
    }
}

/// Counts the gas that a call uses against its optional limit.
pub struct Gasometer {
    pub target_gas: Option<u64>,
    pub used_gas: u64,
}

impl Gasometer {
    /// A gasometer that has used nothing.
    pub fn new(target_gas: Option<u64>) -> (g: Gasometer)
        ensures
            g.target_gas == target_gas,
            g.used_gas == 0,
    {
        Gasometer { target_gas, used_gas: 0 }
    }

    /// The gas used so far.
    pub fn used_gas(&self) -> (u: u64)
        ensures
            u == self.used_gas,
    {
        self.used_gas
    }

    /// Adds `cost` to the gas used. Fails with `OutOfGas` when the sum passes
    /// `u64::MAX`, or passes the limit; the sum is recorded in the second
    /// case, not in the first.
    pub fn record_cost(&mut self, cost: u64) -> (r: Result<(), ExitError>)
        ensures
            final(self).target_gas == old(self).target_gas,
            old(self).used_gas + cost > u64::MAX ==> r == Err::<(), ExitError>(ExitError::OutOfGas)
                && final(self).used_gas == old(self).used_gas,
            old(self).used_gas + cost <= u64::MAX ==> final(self).used_gas == old(self).used_gas
                + cost && r == (match old(self).target_gas {
                Some(limit) => if old(self).used_gas + cost > limit {
                    Err::<(), ExitError>(ExitError::OutOfGas)
                } else {
                    Ok(())
                },
                None => Ok(()),
            }),
    {
        match self.used_gas.checked_add(cost) {
            Some(used) => {
                self.used_gas = used;
            },
            None => {
                return Err(ExitError::OutOfGas);
            },
        }
        match self.target_gas {
            Some(limit) => {
                if self.used_gas > limit {
                    return Err(ExitError::OutOfGas);
                }
                Ok(())
            },
            None => Ok(()),
        }
    }
}

/// What reading a 32-byte value at `cursor` gives: the value, or why not.
pub open spec fn read_word(input: Seq<u8>, cursor: nat) -> Result<Seq<u8>, ExitError> {
    if cursor + 32 > usize::MAX {
        Err(ExitError::CursorOverflow)
    } else if cursor + 32 > input.len() {
        Err(ExitError::ValueOutOfBounds)
    } else {
        Ok(input.subrange(cursor as int, cursor + 32int))
    }
}

/// Reads EVM ABI data: a selector, then 32-byte words.
pub struct EvmDataReader<'a> {
    pub input: &'a [u8],
    pub cursor: usize,
}

impl<'a> EvmDataReader<'a> {
    /// A reader at the start of `input`.
    pub fn new(input: &'a [u8]) -> (r: EvmDataReader<'a>)
        ensures
            r.input@ == input@,
            r.cursor == 0,
    {
        EvmDataReader { input, cursor: 0 }
    }

    /// Reads the selector in the first four bytes of the input, and the
    /// function that it names.
    pub fn read_selector(&mut self) -> (r: Result<Action, ExitError>)
        requires
            old(self).cursor + 4 <= usize::MAX,
        ensures
            final(self).input@ == old(self).input@,
            old(self).input@.len() < 4 ==> r == Err::<Action, ExitError>(
                ExitError::SelectorOutOfBounds,
            ) && final(self).cursor == old(self).cursor,
            old(self).input@.len() >= 4 && old(self).input@.subrange(0, 4) != random_selector()
                ==> r == Err::<Action, ExitError>(ExitError::UnknownSelector) && final(self).cursor
                == old(self).cursor,
            old(self).input@.len() >= 4 && old(self).input@.subrange(0, 4) == random_selector()
                ==> r == Ok::<Action, ExitError>(Action::Random) && final(self).cursor == old(self).cursor + 4,
    {
        if self.input.len() < 4 {
            return Err(ExitError::SelectorOutOfBounds);
        }
        let buffer = [self.input[0], self.input[1], self.input[2], self.input[3]];
        assert(buffer@ =~= self.input@.subrange(0, 4));
        match Action::from_selector(&buffer) {
            Some(action) => {
                self.cursor = self.cursor + 4;
                Ok(action)
            },
            None => Err(ExitError::UnknownSelector),
        }
    }

    /// Reads the 32-byte word at the cursor, and moves the cursor past it
    /// (also when the input ends before it).
    pub fn read_h256(&mut self) -> (r: Result<[u8; 32], ExitError>)
        ensures
            final(self).input@ == old(self).input@,
            match read_word(old(self).input@, old(self).cursor as nat) {
                Ok(word) => r matches Ok(h) && h@ == word && final(self).cursor == old(self).cursor
                    + 32,
                Err(e) => r == Err::<[u8; 32], ExitError>(e),
            },
    {
        let start = self.cursor;
        let end = match start.checked_add(32) {
            Some(end) => end,
            None => {
                return Err(ExitError::CursorOverflow);
            },
        };
        self.cursor = end;
        if end > self.input.len() {
            return Err(ExitError::ValueOutOfBounds);
        }
        let mut h = [0u8; 32];
        let mut i: usize = 0;
        while i < 32
            invariant
                i <= 32,
                start + 32 == end <= self.input@.len(),
                h@.len() == 32,
                forall|k: int| 0 <= k < i ==> h@[k] == self.input@[start + k],
            decreases 32 - i,
        {
            h[i] = self.input[start + i];
            i = i + 1;
        }
        assert(h@ =~= self.input@.subrange(start as int, start + 32));
        Ok(h)
    }
}

/// Writes EVM ABI data.
pub struct EvmDataWriter {
    pub data: Vec<u8>,
}

impl EvmDataWriter {
    /// A writer with nothing written.
    pub fn new() -> (w: EvmDataWriter)
        ensures
            w.data@ == Seq::<u8>::empty(),
    {
        EvmDataWriter { data: Vec::new() }
    }

    /// Appends bytes as they are.
    pub fn write_raw_bytes(self, bytes: &[u8]) -> (w: EvmDataWriter)
        ensures
            w.data@ == self.data@ + bytes@,
    {
        let mut data = self.data;
        crate::message::append_bytes(&mut data, bytes);
        EvmDataWriter { data }
    }

    /// Appends a 32-byte word.
    pub fn write_h256(self, value: [u8; 32]) -> (w: EvmDataWriter)
        ensures
            w.data@ == self.data@ + value@,
    {
        self.write_raw_bytes(value.as_slice())
    }

    /// Appends a `u32` as a 32-byte big-endian word.
    pub fn write_u32(self, value: u32) -> (w: EvmDataWriter)
        ensures
            w.data@ == self.data@ + u32_word(value),
    {
        let mut word = [0u8; 32];
        word[28] = (value / 0x1000000) as u8;
        word[29] = (value / 0x10000 % 0x100) as u8;
        word[30] = (value / 0x100 % 0x100) as u8;
        word[31] = (value % 0x100) as u8;
        assert(word@ =~= u32_word(value));
        self.write_raw_bytes(word.as_slice())
    }

    /// The bytes written.
    pub fn build(self) -> (data: Vec<u8>)
        ensures
            data@ == self.data@,
    {
        self.data
    }
}

/// A call of `random(bytes32)` that has paid for its storage read: the
/// runtime draws the randomness for `subject` (its SCALE encoding is its 32
/// bytes) and `respond` answers the call.
#[derive(Clone, Copy, Debug, PartialEq, Eq)]
pub struct RandomRequest {
    pub subject: [u8; 32],
    pub used_gas: u64,
}

/// What `random` gives for the input after the selector: the subject and
/// the gas used, or why not.
pub open spec fn random_outcome(
    input: Seq<u8>,
    cursor: nat,
    target_gas: Option<u64>,
    db_read_gas_cost: u64,
) -> Result<(Seq<u8>, u64), ExitError> {
    if target_gas matches Some(limit) && db_read_gas_cost > limit {
        Err(ExitError::OutOfGas)
    } else {
        match read_word(input, cursor) {
            Ok(word) => Ok((word, db_read_gas_cost)),
            Err(e) => Err(e),
        }
    }
}

impl RandomRequest {
    /// The answer of the call: the seed, then the block number as a word, and
    /// the gas used.
    pub fn respond(&self, seed: [u8; 32], block_number: u32) -> (out: (ExitSucceed, Vec<u8>, u64))
        ensures
            out.0 == ExitSucceed::Returned,
            out.1@ == seed@ + u32_word(block_number),
            out.2 == self.used_gas,
    {
        let output = EvmDataWriter::new().write_h256(seed).write_u32(block_number).build();
        assert(output@ =~= seed@ + u32_word(block_number));
        (ExitSucceed::Returned, output, self.used_gas)
    }
}

/// The randomness precompile.
pub struct Randomness;

impl Randomness {
    /// Dispatches a call on its selector; `db_read_gas_cost` is the gas that
    /// one storage read costs in the runtime.
    pub fn execute(input: &[u8], target_gas: Option<u64>, db_read_gas_cost: u64) -> (r: Result<
        RandomRequest,
        ExitError,
    >)
        ensures
            input@.len() < 4 ==> r == Err::<RandomRequest, ExitError>(
                ExitError::SelectorOutOfBounds,
            ),
            input@.len() >= 4 && input@.subrange(0, 4) != random_selector() ==> r == Err::<
                RandomRequest,
                ExitError,
            >(ExitError::UnknownSelector),
            input@.len() >= 4 && input@.subrange(0, 4) == random_selector() ==> match random_outcome(
                input@,
                4,
                target_gas,
                db_read_gas_cost,
            ) {
                Ok((subject, used)) => r matches Ok(req) && req.subject@ == subject && req.used_gas
                    == used,
                Err(e) => r == Err::<RandomRequest, ExitError>(e),
            },
            r matches Ok(req) ==> input@.len() >= 36 && req.subject@ == input@.subrange(4, 36)
                && req.used_gas == db_read_gas_cost,
    {
        let mut reader = EvmDataReader::new(input);
        match reader.read_selector() {
            Ok(Action::Random) => Self::random(reader, target_gas, db_read_gas_cost),
            Err(e) => Err(e),
        }
    }

    /// Charges one storage read, then reads the 32-byte subject.
    pub fn random(input: EvmDataReader, target_gas: Option<u64>, db_read_gas_cost: u64) -> (r:
        Result<RandomRequest, ExitError>)
        ensures
            match random_outcome(input.input@, input.cursor as nat, target_gas, db_read_gas_cost) {
                Ok((subject, used)) => r matches Ok(req) && req.subject@ == subject && req.used_gas
                    == used,
                Err(e) => r == Err::<RandomRequest, ExitError>(e),
            },
            r matches Ok(req) ==> input.cursor + 32 <= input.input@.len() && req.subject@
                == input.input@.subrange(input.cursor as int, input.cursor + 32int) && req.used_gas
                == db_read_gas_cost,
    {
        let mut input = input;
        let mut gasometer = Gasometer::new(target_gas);
        match gasometer.record_cost(db_read_gas_cost) {
            Ok(()) => {},
            Err(e) => {
                return Err(e);
            },
        }
        let subject = match input.read_h256() {
            Ok(h) => h,
            Err(e) => {
                return Err(e);
            },
        };
        Ok(RandomRequest { subject, used_gas: gasometer.used_gas() })
    }
}

} // verus!
