//! The built-in confusables dataset: a selection of mappings from the
//! Unicode confusables data (UTS #39) covering Greek and Cyrillic
//! lookalikes, letterlike symbols, mathematical styled letters, latin
//! ligatures and dot leaders.
use vstd::prelude::*;

use crate::table::keys_strictly_sorted;
use crate::table::pool_closed;
use crate::table::ranges_wf;
use crate::table::ConfusableEntry;
use crate::table::ConfusablesTable;

verus! {

/// The entries of the built-in dataset, sorted by source codepoint.
pub open spec fn builtin_entries() -> Seq<ConfusableEntry> {
    seq![
        ConfusableEntry { key: 0x0030, offset: 0 },
        ConfusableEntry { key: 0x0031, offset: 1 },
        ConfusableEntry { key: 0x0049, offset: 2 },
        ConfusableEntry { key: 0x0391, offset: 3 },
        ConfusableEntry { key: 0x0392, offset: 4 },
        ConfusableEntry { key: 0x0395, offset: 5 },
        ConfusableEntry { key: 0x0396, offset: 6 },
        ConfusableEntry { key: 0x0397, offset: 7 },
        ConfusableEntry { key: 0x039A, offset: 8 },
        ConfusableEntry { key: 0x039C, offset: 9 },
        ConfusableEntry { key: 0x039D, offset: 10 },
        ConfusableEntry { key: 0x039F, offset: 11 },
        ConfusableEntry { key: 0x03A1, offset: 12 },
        ConfusableEntry { key: 0x03A4, offset: 13 },
        ConfusableEntry { key: 0x03A5, offset: 14 },
        ConfusableEntry { key: 0x03A7, offset: 15 },
        ConfusableEntry { key: 0x03BF, offset: 16 },
        ConfusableEntry { key: 0x0410, offset: 17 },
        ConfusableEntry { key: 0x0412, offset: 18 },
        ConfusableEntry { key: 0x0415, offset: 19 },
        ConfusableEntry { key: 0x041A, offset: 20 },
        ConfusableEntry { key: 0x041C, offset: 21 },
        ConfusableEntry { key: 0x041D, offset: 22 },
        ConfusableEntry { key: 0x041E, offset: 23 },
        ConfusableEntry { key: 0x0420, offset: 24 },
        ConfusableEntry { key: 0x0421, offset: 25 },
        ConfusableEntry { key: 0x0422, offset: 26 },
        ConfusableEntry { key: 0x0425, offset: 27 },
        ConfusableEntry { key: 0x0430, offset: 28 },
        ConfusableEntry { key: 0x0435, offset: 29 },
        ConfusableEntry { key: 0x043E, offset: 30 },
        ConfusableEntry { key: 0x0440, offset: 31 },
        ConfusableEntry { key: 0x0441, offset: 32 },
        ConfusableEntry { key: 0x0443, offset: 33 },
        ConfusableEntry { key: 0x0445, offset: 34 },
        ConfusableEntry { key: 0x1EFF, offset: 35 },
        ConfusableEntry { key: 0x2025, offset: 36 },
        ConfusableEntry { key: 0x2026, offset: 38 },
        ConfusableEntry { key: 0x210A, offset: 41 },
        ConfusableEntry { key: 0x210B, offset: 42 },
        ConfusableEntry { key: 0x210C, offset: 43 },
        ConfusableEntry { key: 0x210D, offset: 44 },
        ConfusableEntry { key: 0x210E, offset: 45 },
        ConfusableEntry { key: 0x2112, offset: 46 },
        ConfusableEntry { key: 0x2113, offset: 47 },
        ConfusableEntry { key: 0x2115, offset: 48 },
        ConfusableEntry { key: 0x2119, offset: 49 },
        ConfusableEntry { key: 0x211A, offset: 50 },
        ConfusableEntry { key: 0x211B, offset: 51 },
        ConfusableEntry { key: 0x211C, offset: 52 },
        ConfusableEntry { key: 0x211D, offset: 53 },
        ConfusableEntry { key: 0x2124, offset: 54 },
        ConfusableEntry { key: 0x2128, offset: 55 },
        ConfusableEntry { key: 0x212C, offset: 56 },
        ConfusableEntry { key: 0x212D, offset: 57 },
        ConfusableEntry { key: 0x212F, offset: 58 },
        ConfusableEntry { key: 0x2130, offset: 59 },
        ConfusableEntry { key: 0x2131, offset: 60 },
        ConfusableEntry { key: 0x2133, offset: 61 },
        ConfusableEntry { key: 0x2134, offset: 62 },
        ConfusableEntry { key: 0xFB00, offset: 63 },
        ConfusableEntry { key: 0xFB01, offset: 65 },
        ConfusableEntry { key: 0xFB02, offset: 67 },
        ConfusableEntry { key: 0x1D4B6, offset: 69 },
        ConfusableEntry { key: 0x1D4B7, offset: 70 },
        ConfusableEntry { key: 0x1D4B8, offset: 71 },
        ConfusableEntry { key: 0x1D4B9, offset: 72 },
        ConfusableEntry { key: 0x1D4BB, offset: 73 },
        ConfusableEntry { key: 0x1D4BD, offset: 74 },
        ConfusableEntry { key: 0x1D4BE, offset: 75 },
        ConfusableEntry { key: 0x1D4BF, offset: 76 },
        ConfusableEntry { key: 0x1D4C0, offset: 77 },
        ConfusableEntry { key: 0x1D4C1, offset: 78 },
        ConfusableEntry { key: 0x1D4C2, offset: 79 },
        ConfusableEntry { key: 0x1D4C3, offset: 80 },
        ConfusableEntry { key: 0x1D4C5, offset: 81 },
        ConfusableEntry { key: 0x1D4C6, offset: 82 },
        ConfusableEntry { key: 0x1D4C7, offset: 83 },
        ConfusableEntry { key: 0x1D4C8, offset: 84 },
        ConfusableEntry { key: 0x1D4C9, offset: 85 },
        ConfusableEntry { key: 0x1D4CA, offset: 86 },
        ConfusableEntry { key: 0x1D4CB, offset: 87 },
        ConfusableEntry { key: 0x1D4CC, offset: 88 },
        ConfusableEntry { key: 0x1D4CD, offset: 89 },
        ConfusableEntry { key: 0x1D4CE, offset: 90 },
        ConfusableEntry { key: 0x1D4CF, offset: 91 },
        ConfusableEntry { key: 0x1D51E, offset: 92 },
        ConfusableEntry { key: 0x1D51F, offset: 93 },
        ConfusableEntry { key: 0x1D520, offset: 94 },
        ConfusableEntry { key: 0x1D521, offset: 95 },
        ConfusableEntry { key: 0x1D522, offset: 96 },
        ConfusableEntry { key: 0x1D523, offset: 97 },
        ConfusableEntry { key: 0x1D524, offset: 98 },
        ConfusableEntry { key: 0x1D525, offset: 99 },
        ConfusableEntry { key: 0x1D526, offset: 100 },
        ConfusableEntry { key: 0x1D527, offset: 101 },
        ConfusableEntry { key: 0x1D528, offset: 102 },
        ConfusableEntry { key: 0x1D529, offset: 103 },
        ConfusableEntry { key: 0x1D52A, offset: 104 },
        ConfusableEntry { key: 0x1D52B, offset: 105 },
        ConfusableEntry { key: 0x1D52C, offset: 106 },
        ConfusableEntry { key: 0x1D52D, offset: 107 },
        ConfusableEntry { key: 0x1D52E, offset: 108 },
        ConfusableEntry { key: 0x1D52F, offset: 109 },
        ConfusableEntry { key: 0x1D530, offset: 110 },
        ConfusableEntry { key: 0x1D531, offset: 111 },
        ConfusableEntry { key: 0x1D532, offset: 112 },
        ConfusableEntry { key: 0x1D533, offset: 113 },
        ConfusableEntry { key: 0x1D534, offset: 114 },
        ConfusableEntry { key: 0x1D535, offset: 115 },
        ConfusableEntry { key: 0x1D536, offset: 116 },
        ConfusableEntry { key: 0x1D537, offset: 117 },
        ConfusableEntry { key: 0x1D552, offset: 118 },
        ConfusableEntry { key: 0x1D553, offset: 119 },
        ConfusableEntry { key: 0x1D554, offset: 120 },
        ConfusableEntry { key: 0x1D555, offset: 121 },
        ConfusableEntry { key: 0x1D556, offset: 122 },
        ConfusableEntry { key: 0x1D557, offset: 123 },
        ConfusableEntry { key: 0x1D558, offset: 124 },
        ConfusableEntry { key: 0x1D559, offset: 125 },
        ConfusableEntry { key: 0x1D55A, offset: 126 },
        ConfusableEntry { key: 0x1D55B, offset: 127 },
        ConfusableEntry { key: 0x1D55C, offset: 128 },
        ConfusableEntry { key: 0x1D55D, offset: 129 },
        ConfusableEntry { key: 0x1D55E, offset: 130 },
        ConfusableEntry { key: 0x1D55F, offset: 131 },
        ConfusableEntry { key: 0x1D560, offset: 132 },
        ConfusableEntry { key: 0x1D561, offset: 133 },
        ConfusableEntry { key: 0x1D562, offset: 134 },
        ConfusableEntry { key: 0x1D563, offset: 135 },
        ConfusableEntry { key: 0x1D564, offset: 136 },
        ConfusableEntry { key: 0x1D565, offset: 137 },
        ConfusableEntry { key: 0x1D566, offset: 138 },
        ConfusableEntry { key: 0x1D567, offset: 139 },
        ConfusableEntry { key: 0x1D568, offset: 140 },
        ConfusableEntry { key: 0x1D569, offset: 141 },
        ConfusableEntry { key: 0x1D56A, offset: 142 },
        ConfusableEntry { key: 0x1D56B, offset: 143 },
    ]
}

/// The prototype pool of the built-in dataset.
pub open spec fn builtin_pool() -> Seq<char> {
    seq![
        'O', 'l', 'l', 'A', 'B', 'E', 'Z', 'H', 'K', 'M', 'N', 'O', 'P', 'T', 'Y', 'X', 'o',
        'A', 'B', 'E', 'K', 'M', 'H', 'O', 'P', 'C', 'T', 'X', 'a', 'e', 'o', 'p', 'c', 'y',
        'x', 'y', '.', '.', '.', '.', '.', 'g', 'H', 'H', 'H', 'h', 'L', 'l', 'N', 'P', 'Q',
        'R', 'R', 'R', 'Z', 'Z', 'B', 'C', 'e', 'E', 'F', 'M', 'o', 'f', 'f', 'f', 'i', 'f',
        'l', 'a', 'b', 'c', 'd', 'f', 'h', 'i', 'j', 'k', 'l', 'm', 'n', 'p', 'q', 'r', 's',
        't', 'u', 'v', 'w', 'x', 'y', 'z', 'a', 'b', 'c', 'd', 'e', 'f', 'g', 'h', 'i', 'j',
        'k', 'l', 'm', 'n', 'o', 'p', 'q', 'r', 's', 't', 'u', 'v', 'w', 'x', 'y', 'z', 'a',
        'b', 'c', 'd', 'e', 'f', 'g', 'h', 'i', 'j', 'k', 'l', 'm', 'n', 'o', 'p', 'q', 'r',
        's', 't', 'u', 'v', 'w', 'x', 'y', 'z'
    ]
}

/// Whether the built-in dataset satisfies every table invariant.
pub open spec fn builtin_data_wf() -> bool {
    &&& keys_strictly_sorted(builtin_entries())
    &&& ranges_wf(builtin_entries(), builtin_pool())
    &&& pool_closed(builtin_entries(), builtin_pool())
}

/// The entries of the built-in dataset as a vector.
#[verifier::rlimit(100)]
fn builtin_entries_vec() -> (v: Vec<ConfusableEntry>)
    ensures
        v@ == builtin_entries(),
{
    let v: Vec<ConfusableEntry> = vec![
        ConfusableEntry { key: 0x0030, offset: 0 },
        ConfusableEntry { key: 0x0031, offset: 1 },
        ConfusableEntry { key: 0x0049, offset: 2 },
        ConfusableEntry { key: 0x0391, offset: 3 },
        ConfusableEntry { key: 0x0392, offset: 4 },
        ConfusableEntry { key: 0x0395, offset: 5 },
        ConfusableEntry { key: 0x0396, offset: 6 },
        ConfusableEntry { key: 0x0397, offset: 7 },
        ConfusableEntry { key: 0x039A, offset: 8 },
        ConfusableEntry { key: 0x039C, offset: 9 },
        ConfusableEntry { key: 0x039D, offset: 10 },
        ConfusableEntry { key: 0x039F, offset: 11 },
        ConfusableEntry { key: 0x03A1, offset: 12 },
        ConfusableEntry { key: 0x03A4, offset: 13 },
        ConfusableEntry { key: 0x03A5, offset: 14 },
        ConfusableEntry { key: 0x03A7, offset: 15 },
        ConfusableEntry { key: 0x03BF, offset: 16 },
        ConfusableEntry { key: 0x0410, offset: 17 },
        ConfusableEntry { key: 0x0412, offset: 18 },
        ConfusableEntry { key: 0x0415, offset: 19 },
        ConfusableEntry { key: 0x041A, offset: 20 },
        ConfusableEntry { key: 0x041C, offset: 21 },
        ConfusableEntry { key: 0x041D, offset: 22 },
        ConfusableEntry { key: 0x041E, offset: 23 },
        ConfusableEntry { key: 0x0420, offset: 24 },
        ConfusableEntry { key: 0x0421, offset: 25 },
        ConfusableEntry { key: 0x0422, offset: 26 },
        ConfusableEntry { key: 0x0425, offset: 27 },
        ConfusableEntry { key: 0x0430, offset: 28 },
        ConfusableEntry { key: 0x0435, offset: 29 },
        ConfusableEntry { key: 0x043E, offset: 30 },
        ConfusableEntry { key: 0x0440, offset: 31 },
        ConfusableEntry { key: 0x0441, offset: 32 },
        ConfusableEntry { key: 0x0443, offset: 33 },
        ConfusableEntry { key: 0x0445, offset: 34 },
        ConfusableEntry { key: 0x1EFF, offset: 35 },
        ConfusableEntry { key: 0x2025, offset: 36 },
        ConfusableEntry { key: 0x2026, offset: 38 },
        ConfusableEntry { key: 0x210A, offset: 41 },
        ConfusableEntry { key: 0x210B, offset: 42 },
        ConfusableEntry { key: 0x210C, offset: 43 },
        ConfusableEntry { key: 0x210D, offset: 44 },
        ConfusableEntry { key: 0x210E, offset: 45 },
        ConfusableEntry { key: 0x2112, offset: 46 },
        ConfusableEntry { key: 0x2113, offset: 47 },
        ConfusableEntry { key: 0x2115, offset: 48 },
        ConfusableEntry { key: 0x2119, offset: 49 },
        ConfusableEntry { key: 0x211A, offset: 50 },
        ConfusableEntry { key: 0x211B, offset: 51 },
        ConfusableEntry { key: 0x211C, offset: 52 },
        ConfusableEntry { key: 0x211D, offset: 53 },
        ConfusableEntry { key: 0x2124, offset: 54 },
        ConfusableEntry { key: 0x2128, offset: 55 },
        ConfusableEntry { key: 0x212C, offset: 56 },
        ConfusableEntry { key: 0x212D, offset: 57 },
        ConfusableEntry { key: 0x212F, offset: 58 },
        ConfusableEntry { key: 0x2130, offset: 59 },
        ConfusableEntry { key: 0x2131, offset: 60 },
        ConfusableEntry { key: 0x2133, offset: 61 },
        ConfusableEntry { key: 0x2134, offset: 62 },
        ConfusableEntry { key: 0xFB00, offset: 63 },
        ConfusableEntry { key: 0xFB01, offset: 65 },
        ConfusableEntry { key: 0xFB02, offset: 67 },
        ConfusableEntry { key: 0x1D4B6, offset: 69 },
        ConfusableEntry { key: 0x1D4B7, offset: 70 },
        ConfusableEntry { key: 0x1D4B8, offset: 71 },
        ConfusableEntry { key: 0x1D4B9, offset: 72 },
        ConfusableEntry { key: 0x1D4BB, offset: 73 },
        ConfusableEntry { key: 0x1D4BD, offset: 74 },
        ConfusableEntry { key: 0x1D4BE, offset: 75 },
        ConfusableEntry { key: 0x1D4BF, offset: 76 },
        ConfusableEntry { key: 0x1D4C0, offset: 77 },
        ConfusableEntry { key: 0x1D4C1, offset: 78 },
        ConfusableEntry { key: 0x1D4C2, offset: 79 },
        ConfusableEntry { key: 0x1D4C3, offset: 80 },
        ConfusableEntry { key: 0x1D4C5, offset: 81 },
        ConfusableEntry { key: 0x1D4C6, offset: 82 },
        ConfusableEntry { key: 0x1D4C7, offset: 83 },
        ConfusableEntry { key: 0x1D4C8, offset: 84 },
        ConfusableEntry { key: 0x1D4C9, offset: 85 },
        ConfusableEntry { key: 0x1D4CA, offset: 86 },
        ConfusableEntry { key: 0x1D4CB, offset: 87 },
        ConfusableEntry { key: 0x1D4CC, offset: 88 },
        ConfusableEntry { key: 0x1D4CD, offset: 89 },
        ConfusableEntry { key: 0x1D4CE, offset: 90 },
        ConfusableEntry { key: 0x1D4CF, offset: 91 },
        ConfusableEntry { key: 0x1D51E, offset: 92 },
        ConfusableEntry { key: 0x1D51F, offset: 93 },
        ConfusableEntry { key: 0x1D520, offset: 94 },
        ConfusableEntry { key: 0x1D521, offset: 95 },
        ConfusableEntry { key: 0x1D522, offset: 96 },
        ConfusableEntry { key: 0x1D523, offset: 97 },
        ConfusableEntry { key: 0x1D524, offset: 98 },
        ConfusableEntry { key: 0x1D525, offset: 99 },
        ConfusableEntry { key: 0x1D526, offset: 100 },
        ConfusableEntry { key: 0x1D527, offset: 101 },
        ConfusableEntry { key: 0x1D528, offset: 102 },
        ConfusableEntry { key: 0x1D529, offset: 103 },
        ConfusableEntry { key: 0x1D52A, offset: 104 },
        ConfusableEntry { key: 0x1D52B, offset: 105 },
        ConfusableEntry { key: 0x1D52C, offset: 106 },
        ConfusableEntry { key: 0x1D52D, offset: 107 },
        ConfusableEntry { key: 0x1D52E, offset: 108 },
        ConfusableEntry { key: 0x1D52F, offset: 109 },
        ConfusableEntry { key: 0x1D530, offset: 110 },
        ConfusableEntry { key: 0x1D531, offset: 111 },
        ConfusableEntry { key: 0x1D532, offset: 112 },
        ConfusableEntry { key: 0x1D533, offset: 113 },
        ConfusableEntry { key: 0x1D534, offset: 114 },
        ConfusableEntry { key: 0x1D535, offset: 115 },
        ConfusableEntry { key: 0x1D536, offset: 116 },
        ConfusableEntry { key: 0x1D537, offset: 117 },
        ConfusableEntry { key: 0x1D552, offset: 118 },
        ConfusableEntry { key: 0x1D553, offset: 119 },
        ConfusableEntry { key: 0x1D554, offset: 120 },
        ConfusableEntry { key: 0x1D555, offset: 121 },
        ConfusableEntry { key: 0x1D556, offset: 122 },
        ConfusableEntry { key: 0x1D557, offset: 123 },
        ConfusableEntry { key: 0x1D558, offset: 124 },
        ConfusableEntry { key: 0x1D559, offset: 125 },
        ConfusableEntry { key: 0x1D55A, offset: 126 },
        ConfusableEntry { key: 0x1D55B, offset: 127 },
        ConfusableEntry { key: 0x1D55C, offset: 128 },
        ConfusableEntry { key: 0x1D55D, offset: 129 },
        ConfusableEntry { key: 0x1D55E, offset: 130 },
        ConfusableEntry { key: 0x1D55F, offset: 131 },
        ConfusableEntry { key: 0x1D560, offset: 132 },
        ConfusableEntry { key: 0x1D561, offset: 133 },
        ConfusableEntry { key: 0x1D562, offset: 134 },
        ConfusableEntry { key: 0x1D563, offset: 135 },
        ConfusableEntry { key: 0x1D564, offset: 136 },
        ConfusableEntry { key: 0x1D565, offset: 137 },
        ConfusableEntry { key: 0x1D566, offset: 138 },
        ConfusableEntry { key: 0x1D567, offset: 139 },
        ConfusableEntry { key: 0x1D568, offset: 140 },
        ConfusableEntry { key: 0x1D569, offset: 141 },
        ConfusableEntry { key: 0x1D56A, offset: 142 },
        ConfusableEntry { key: 0x1D56B, offset: 143 },
    ];
    assert(v@ =~= builtin_entries());
    v
}

/// The prototype pool of the built-in dataset as a vector.
#[verifier::rlimit(100)]
fn builtin_pool_vec() -> (v: Vec<char>)
    ensures
        v@ == builtin_pool(),
{
    let v: Vec<char> = vec![
        'O', 'l', 'l', 'A', 'B', 'E', 'Z', 'H', 'K', 'M', 'N', 'O', 'P', 'T', 'Y', 'X', 'o',
        'A', 'B', 'E', 'K', 'M', 'H', 'O', 'P', 'C', 'T', 'X', 'a', 'e', 'o', 'p', 'c', 'y',
        'x', 'y', '.', '.', '.', '.', '.', 'g', 'H', 'H', 'H', 'h', 'L', 'l', 'N', 'P', 'Q',
        'R', 'R', 'R', 'Z', 'Z', 'B', 'C', 'e', 'E', 'F', 'M', 'o', 'f', 'f', 'f', 'i', 'f',
        'l', 'a', 'b', 'c', 'd', 'f', 'h', 'i', 'j', 'k', 'l', 'm', 'n', 'p', 'q', 'r', 's',
        't', 'u', 'v', 'w', 'x', 'y', 'z', 'a', 'b', 'c', 'd', 'e', 'f', 'g', 'h', 'i', 'j',
        'k', 'l', 'm', 'n', 'o', 'p', 'q', 'r', 's', 't', 'u', 'v', 'w', 'x', 'y', 'z', 'a',
        'b', 'c', 'd', 'e', 'f', 'g', 'h', 'i', 'j', 'k', 'l', 'm', 'n', 'o', 'p', 'q', 'r',
        's', 't', 'u', 'v', 'w', 'x', 'y', 'z'
    ];
    assert(v@ =~= builtin_pool());
    v
}

/// Build the built-in confusables table. Construction validates every table
/// invariant (sorted unique keys, a properly partitioned pool, the
/// single-pass closure property) and refuses a dataset that breaks one, so a
/// table is returned exactly when the built-in dataset is well formed.
#[verifier::rlimit(100)]
pub fn default_table() -> (r: Option<ConfusablesTable>)
    ensures
        r matches Some(t) ==> t.wf() && t.entries@ == builtin_entries() && t.pool@
            == builtin_pool(),
        r is None ==> !builtin_data_wf(),
{
    let entries = builtin_entries_vec();
    let pool = builtin_pool_vec();
    ConfusablesTable::new(entries, pool)
}

} // verus!
