//! Classification of raw unit words into the closed [`LimitUnit`] set, and
//! the word each unit renders back to.

use vstd::prelude::*;
use crate::model::{LimitUnit, UnitModel};

verus! {

/// The bytes of the word `bytes`.
pub open spec fn kw_bytes() -> Seq<u8> {
    seq![98u8, 121u8, 116u8, 101u8, 115u8]
}

/// The bytes of the word `files`.
pub open spec fn kw_files() -> Seq<u8> {
    seq![102u8, 105u8, 108u8, 101u8, 115u8]
}

/// The bytes of the word `locks`.
pub open spec fn kw_locks() -> Seq<u8> {
    seq![108u8, 111u8, 99u8, 107u8, 115u8]
}

/// The bytes of the word `processes`.
pub open spec fn kw_processes() -> Seq<u8> {
    seq![112u8, 114u8, 111u8, 99u8, 101u8, 115u8, 115u8, 101u8, 115u8]
}

/// The bytes of the word `seconds`.
pub open spec fn kw_seconds() -> Seq<u8> {
    seq![115u8, 101u8, 99u8, 111u8, 110u8, 100u8, 115u8]
}

/// The bytes of the word `signals`.
pub open spec fn kw_signals() -> Seq<u8> {
    seq![115u8, 105u8, 103u8, 110u8, 97u8, 108u8, 115u8]
}

/// The bytes of the word `us`.
pub open spec fn kw_us() -> Seq<u8> {
    seq![117u8, 115u8]
}

/// The unit a raw word stands for: one of the seven recognized words maps to
/// its variant, and any other word is kept verbatim in `Other`.
pub open spec fn spec_classify(w: Seq<u8>) -> UnitModel {
    if w == kw_bytes() {
        UnitModel::Bytes
    } else if w == kw_files() {
        UnitModel::Files
    } else if w == kw_locks() {
        UnitModel::Locks
    } else if w == kw_processes() {
        UnitModel::Processes
    } else if w == kw_seconds() {
        UnitModel::Seconds
    } else if w == kw_signals() {
        UnitModel::Signals
    } else if w == kw_us() {
        UnitModel::Us
    } else {
        UnitModel::Other(w)
    }
}

/// Classification lifted over an absent word: no word means no unit.
pub open spec fn spec_classify_opt(w: Option<Seq<u8>>) -> Option<UnitModel> {
    match w {
        Option::Some(x) => Option::Some(spec_classify(x)),
        Option::None => Option::None,
    }
}

/// Maps one raw unit word to its [`LimitUnit`].
pub fn classify_word(w: Vec<u8>) -> (r: LimitUnit)
    ensures
        r@ == spec_classify(w@),
{
    // bytes
    if w.len() == 5 && w[0] == 98 && w[1] == 121 && w[2] == 116 && w[3] == 101 && w[4] == 115 {
        proof { assert(w@ =~= kw_bytes()); }
        return LimitUnit::Bytes;
    }
    // files
    if w.len() == 5 && w[0] == 102 && w[1] == 105 && w[2] == 108 && w[3] == 101 && w[4] == 115 {
        proof { assert(w@ =~= kw_files()); }
        return LimitUnit::Files;
    }
    // locks
    if w.len() == 5 && w[0] == 108 && w[1] == 111 && w[2] == 99 && w[3] == 107 && w[4] == 115 {
        proof { assert(w@ =~= kw_locks()); }
        return LimitUnit::Locks;
    }
    // processes
    if w.len() == 9 && w[0] == 112 && w[1] == 114 && w[2] == 111 && w[3] == 99 && w[4] == 101
        && w[5] == 115 && w[6] == 115 && w[7] == 101 && w[8] == 115 {
        proof { assert(w@ =~= kw_processes()); }
        return LimitUnit::Processes;
    }
    // seconds
    if w.len() == 7 && w[0] == 115 && w[1] == 101 && w[2] == 99 && w[3] == 111 && w[4] == 110
        && w[5] == 100 && w[6] == 115 {
        proof { assert(w@ =~= kw_seconds()); }
        return LimitUnit::Seconds;
    }
    // signals
    if w.len() == 7 && w[0] == 115 && w[1] == 105 && w[2] == 103 && w[3] == 110 && w[4] == 97
        && w[5] == 108 && w[6] == 115 {
        proof { assert(w@ =~= kw_signals()); }
        return LimitUnit::Signals;
    }
    // us
    if w.len() == 2 && w[0] == 117 && w[1] == 115 {
        proof { assert(w@ =~= kw_us()); }
        return LimitUnit::Us;
    }
    proof {
        if w@ == kw_bytes() {
            assert(w@.len() == 5 && w@[0] == 98 && w@[1] == 121 && w@[2] == 116 && w@[3] == 101
                && w@[4] == 115);
        }
        if w@ == kw_files() {
            assert(w@.len() == 5 && w@[0] == 102 && w@[1] == 105 && w@[2] == 108 && w@[3] == 101
                && w@[4] == 115);
        }
        if w@ == kw_locks() {
            assert(w@.len() == 5 && w@[0] == 108 && w@[1] == 111 && w@[2] == 99 && w@[3] == 107
                && w@[4] == 115);
        }
        if w@ == kw_processes() {
            assert(w@.len() == 9 && w@[0] == 112 && w@[1] == 114 && w@[2] == 111 && w@[3] == 99
                && w@[4] == 101 && w@[5] == 115 && w@[6] == 115 && w@[7] == 101 && w@[8] == 115);
        }
        if w@ == kw_seconds() {
            assert(w@.len() == 7 && w@[0] == 115 && w@[1] == 101 && w@[2] == 99 && w@[3] == 111
                && w@[4] == 110 && w@[5] == 100 && w@[6] == 115);
        }
        if w@ == kw_signals() {
            assert(w@.len() == 7 && w@[0] == 115 && w@[1] == 105 && w@[2] == 103 && w@[3] == 110
                && w@[4] == 97 && w@[5] == 108 && w@[6] == 115);
        }
        if w@ == kw_us() {
            assert(w@.len() == 2 && w@[0] == 117 && w@[1] == 115);
        }
    }
    LimitUnit::Other(w)
}

/// Maps an optional raw unit word to its optional [`LimitUnit`]: a
/// recognized word to its variant, an unrecognized word to `Other` with the
/// bytes kept verbatim, and no word to no unit.
pub fn unit_types(unit: Option<Vec<u8>>) -> (r: Option<LimitUnit>)
    ensures
        match (r, unit) {
            (Option::Some(u), Option::Some(w)) => u@ == spec_classify(w@),
            (Option::None, Option::None) => true,
            _ => false,
        },
{
    match unit {
        Option::Some(w) => Option::Some(classify_word(w)),
        Option::None => Option::None,
    }
}

/// The word a unit renders back to: each recognized variant its keyword, and
/// `Other` its original bytes.
pub open spec fn spec_unit_word(u: UnitModel) -> Seq<u8> {
    match u {
        UnitModel::Seconds => kw_seconds(),
        UnitModel::Bytes => kw_bytes(),
        UnitModel::Processes => kw_processes(),
        UnitModel::Files => kw_files(),
        UnitModel::Locks => kw_locks(),
        UnitModel::Other(w) => w,
        UnitModel::Signals => kw_signals(),
        UnitModel::Us => kw_us(),
    }
}

/// Builds the byte word a unit renders to.
pub fn unit_word_bytes(u: &LimitUnit) -> (v: Vec<u8>)
    ensures
        v@ == spec_unit_word(u@),
{
    let mut v: Vec<u8> = Vec::new();
    match u {
        LimitUnit::Seconds => {
            v.push(115); v.push(101); v.push(99); v.push(111); v.push(110); v.push(100);
            v.push(115);
            proof { assert(v@ =~= kw_seconds()); }
        },
        LimitUnit::Bytes => {
            v.push(98); v.push(121); v.push(116); v.push(101); v.push(115);
            proof { assert(v@ =~= kw_bytes()); }
        },
        LimitUnit::Processes => {
            v.push(112); v.push(114); v.push(111); v.push(99); v.push(101); v.push(115);
            v.push(115); v.push(101); v.push(115);
            proof { assert(v@ =~= kw_processes()); }
        },
        LimitUnit::Files => {
            v.push(102); v.push(105); v.push(108); v.push(101); v.push(115);
            proof { assert(v@ =~= kw_files()); }
        },
        LimitUnit::Locks => {
            v.push(108); v.push(111); v.push(99); v.push(107); v.push(115);
            proof { assert(v@ =~= kw_locks()); }
        },
        LimitUnit::Other(w) => {
            let mut k: usize = 0;
            while k < w.len()
                invariant
                    k <= w.len(),
                    v@ == w@.subrange(0, k as int),
                decreases w.len() - k,
            {
                v.push(w[k]);
                proof { assert(v@ =~= w@.subrange(0, k as int + 1)); }
                k = k + 1;
            }
            proof { assert(v@ =~= w@); }
        },
        LimitUnit::Signals => {
            v.push(115); v.push(105); v.push(103); v.push(110); v.push(97); v.push(108);
            v.push(115);
            proof { assert(v@ =~= kw_signals()); }
        },
        LimitUnit::Us => {
            v.push(117); v.push(115);
            proof { assert(v@ =~= kw_us()); }
        },
    }
    v
}

} // verus!
