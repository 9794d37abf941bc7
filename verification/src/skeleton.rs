//! The skeleton pipeline and the confusable comparator: canonical
//! decomposition, per-character prototype expansion, a second decomposition,
//! and the lock-step equality test over two skeletons.
use vstd::prelude::*;
use vstd::string::StrSliceExecFns;

use unicode_normalization::UnicodeNormalization;

use crate::table::lemma_key_index_unique;
use crate::table::ConfusablesTable;

verus! {

/// The canonical decomposition (Unicode Normalization Form D) of a character
/// sequence. Its exact value is fixed by the Unicode standard and is a
/// function of the input characters alone; this library does not restate it.
pub uninterp spec fn nfd_of(s: Seq<char>) -> Seq<char>;

/// Relies on unicode_normalization's `nfd`: it yields the input's canonical
/// decomposition (Normalization Form D, UAX #15), a function of the input
/// characters alone; a sequence already in Form D decomposes to itself.
#[verifier::external_body]
fn nfd_chars(input: &Vec<char>) -> (r: Vec<char>)
    ensures
        r@ == nfd_of(input@),
        nfd_of(r@) == r@,
{
    input.iter().cloned().nfd().collect()
}

/// The concatenation, in order, of the expansions of the characters of `s`
/// under table `t`.
pub open spec fn expand_all(t: ConfusablesTable, s: Seq<char>) -> Seq<char>
    decreases s.len(),
{
    if s.len() == 0 {
        Seq::empty()
    } else {
        t.expansion(s[0]) + expand_all(t, s.drop_first())
    }
}

/// The skeleton of a character sequence: decompose, expand every character,
/// then decompose the substituted result again.
pub open spec fn skeleton_spec(t: ConfusablesTable, s: Seq<char>) -> Seq<char> {
    nfd_of(expand_all(t, nfd_of(s)))
}

/// Two sequences are confusable exactly when their skeletons are equal.
pub open spec fn confusable_spec(t: ConfusablesTable, a: Seq<char>, b: Seq<char>) -> bool {
    skeleton_spec(t, a) == skeleton_spec(t, b)
}

/// Expanding a sequence extended by one character appends that character's
/// expansion.
pub proof fn lemma_expand_all_push(t: ConfusablesTable, s: Seq<char>, c: char)
    ensures
        expand_all(t, s.push(c)) == expand_all(t, s) + t.expansion(c),
    decreases s.len(),
{
    if s.len() == 0 {
        assert(s.push(c)[0] == c);
        assert(s.push(c).drop_first() =~= Seq::<char>::empty());
        assert(expand_all(t, s.push(c).drop_first()) =~= Seq::<char>::empty());
        assert(expand_all(t, s) =~= Seq::<char>::empty());
        assert(expand_all(t, s.push(c)) =~= expand_all(t, s) + t.expansion(c));
    } else {
        assert(s.push(c)[0] == s[0]);
        assert(s.push(c).drop_first() =~= s.drop_first().push(c));
        lemma_expand_all_push(t, s.drop_first(), c);
        assert(expand_all(t, s.push(c)) == t.expansion(s[0]) + (expand_all(t, s.drop_first())
            + t.expansion(c)));
        assert(expand_all(t, s) == t.expansion(s[0]) + expand_all(t, s.drop_first()));
        assert(t.expansion(s[0]) + (expand_all(t, s.drop_first()) + t.expansion(c)) =~= (
        t.expansion(s[0]) + expand_all(t, s.drop_first())) + t.expansion(c));
    }
}

/// An iterator over the expansion of one character: its prototype sequence
/// when the table maps it, else the character itself.
pub struct PrototypeCharsIterator {
    /// The characters of the expansion.
    pub chars: Vec<char>,
    /// How many of them have been yielded already.
    pub pos: usize,
}

impl PrototypeCharsIterator {
    /// Look `c` up in the table and position an iterator at the start of its
    /// expansion.
    pub fn new(table: &ConfusablesTable, c: char) -> (r: PrototypeCharsIterator)
        requires
            table.wf(),
        ensures
            r.chars@ == table.expansion(c),
            r.pos == 0,
    {
        PrototypeCharsIterator { chars: expand_char(table, c), pos: 0 }
    }

    /// Yield the next character of the expansion, or `None` once it is
    /// exhausted.
    pub fn next(&mut self) -> (r: Option<char>)
        requires
            old(self).pos <= old(self).chars@.len(),
        ensures
            final(self).chars@ == old(self).chars@,
            old(self).pos < old(self).chars@.len() ==> r == Some(
                old(self).chars@[old(self).pos as int],
            ) && final(self).pos == old(self).pos + 1,
            old(self).pos >= old(self).chars@.len() ==> r is None && final(self).pos == old(
                self,
            ).pos,
    {
        if self.pos < self.chars.len() {
            let c = self.chars[self.pos];
            self.pos = self.pos + 1;
            Some(c)
        } else {
            None
        }
    }
}

/// The expansion of one character as a vector: the prototype sequence copied
/// out of the pool when `c` is a key, else `c` alone.
#[verifier::rlimit(50)]
fn expand_char(table: &ConfusablesTable, c: char) -> (r: Vec<char>)
    requires
        table.wf(),
    ensures
        r@ == table.expansion(c),
{
    match table.lookup(c) {
        Some(i) => {
            let n = table.entries.len();
            let start = table.entries[i].offset as usize;
            let end = if i + 1 < n {
                table.entries[i + 1].offset as usize
            } else {
                table.pool.len()
            };
            let mut v: Vec<char> = Vec::new();
            let mut k: usize = start;
            while k < end
                invariant
                    table.wf(),
                    i < table.entries@.len(),
                    start == table.proto_start(i as int),
                    end == table.proto_end(i as int),
                    start <= k <= end <= table.pool@.len(),
                    v@ == table.pool@.subrange(start as int, k as int),
                decreases end - k,
            {
                v.push(table.pool[k]);
                assert(v@ =~= table.pool@.subrange(start as int, k + 1));
                k = k + 1;
            }
            proof {
                lemma_key_index_unique(*table, c as u32, i as int);
            }
            v
        },
        None => {
            let v = vec![c];
            assert(v@ =~= seq![c]);
            v
        },
    }
}

/// Expand every character of `input` in order and concatenate the results.
fn expand_seq(table: &ConfusablesTable, input: &Vec<char>) -> (r: Vec<char>)
    requires
        table.wf(),
    ensures
        r@ == expand_all(*table, input@),
{
    let mut out: Vec<char> = Vec::new();
    let mut i: usize = 0;
    while i < input.len()
        invariant
            table.wf(),
            i <= input@.len(),
            out@ == expand_all(*table, input@.subrange(0, i as int)),
        decreases input@.len() - i,
    {
        let mut piece = expand_char(table, input[i]);
        proof {
            lemma_expand_all_push(*table, input@.subrange(0, i as int), input@[i as int]);
            assert(input@.subrange(0, i as int).push(input@[i as int]) =~= input@.subrange(
                0,
                i + 1,
            ));
        }
        out.append(&mut piece);
        i = i + 1;
    }
    assert(input@.subrange(0, input@.len() as int) =~= input@);
    out
}

/// Compute the skeleton of a codepoint sequence: canonical decomposition,
/// prototype expansion of every character, and a second canonical
/// decomposition of the substituted result.
pub fn skeleton_of(table: &ConfusablesTable, input: &Vec<char>) -> (r: Vec<char>)
    requires
        table.wf(),
    ensures
        r@ == skeleton_spec(*table, input@),
        nfd_of(r@) == r@,
{
    let d1 = nfd_chars(input);
    let s = expand_seq(table, &d1);
    nfd_chars(&s)
}

/// An iterator over the characters of the skeleton of a unicode string.
/// This is retrieved via the `UnicodeSkeleton` trait.
pub struct SkeletonChars {
    /// The characters of the skeleton.
    pub chars: Vec<char>,
    /// How many of them have been yielded already.
    pub pos: usize,
}

impl SkeletonChars {
    /// Compute the skeleton of `source` and position an iterator at its
    /// start.
    pub fn new(table: &ConfusablesTable, source: &Vec<char>) -> (r: SkeletonChars)
        requires
            table.wf(),
        ensures
            r.chars@ == skeleton_spec(*table, source@),
            nfd_of(r.chars@) == r.chars@,
            r.pos == 0,
    {
        SkeletonChars { chars: skeleton_of(table, source), pos: 0 }
    }

    /// Yield the next character of the skeleton, or `None` once it is
    /// exhausted.
    pub fn next(&mut self) -> (r: Option<char>)
        requires
            old(self).pos <= old(self).chars@.len(),
        ensures
            final(self).chars@ == old(self).chars@,
            old(self).pos < old(self).chars@.len() ==> r == Some(
                old(self).chars@[old(self).pos as int],
            ) && final(self).pos == old(self).pos + 1,
            old(self).pos >= old(self).chars@.len() ==> r is None && final(self).pos == old(
                self,
            ).pos,
    {
        if self.pos < self.chars.len() {
            let c = self.chars[self.pos];
            self.pos = self.pos + 1;
            Some(c)
        } else {
            None
        }
    }
}

/// The characters of a string slice, in order.
fn str_to_chars(s: &str) -> (r: Vec<char>)
    ensures
        r@ == s@,
{
    let n = s.unicode_len();
    let mut v: Vec<char> = Vec::new();
    let mut i: usize = 0;
    while i < n
        invariant
            n == s@.len(),
            i <= n,
            v@ == s@.subrange(0, i as int),
        decreases n - i,
    {
        let c = s.get_char(i);
        v.push(c);
        assert(v@ =~= s@.subrange(0, i + 1));
        i = i + 1;
    }
    assert(v@ =~= s@);
    v
}

/// Method for retrieving a `SkeletonChars` from a `str` or a vector of
/// characters.
pub trait UnicodeSkeleton {
    /// The character sequence this value stands for.
    spec fn chars_view(self) -> Seq<char>;

    /// Retrieve an iterator over the characters of this value's skeleton.
    fn skeleton_chars(self, table: &ConfusablesTable) -> (r: SkeletonChars)
        requires
            table.wf(),
        ensures
            r.chars@ == skeleton_spec(*table, self.chars_view()),
            nfd_of(r.chars@) == r.chars@,
            r.pos == 0,
    ;
}

impl UnicodeSkeleton for &str {
    open spec fn chars_view(self) -> Seq<char> {
        self@
    }

    fn skeleton_chars(self, table: &ConfusablesTable) -> (r: SkeletonChars) {
        let v = str_to_chars(self);
        SkeletonChars::new(table, &v)
    }
}

impl UnicodeSkeleton for Vec<char> {
    open spec fn chars_view(self) -> Seq<char> {
        self@
    }

    fn skeleton_chars(self, table: &ConfusablesTable) -> (r: SkeletonChars) {
        SkeletonChars::new(table, &self)
    }
}

/// Test if two strings have the same skeleton, and thus could be visually
/// confused for each another. The two skeletons are walked in lock-step and
/// the comparison stops at the first difference.
pub fn confusable(table: &ConfusablesTable, a: &str, b: &str) -> (r: bool)
    requires
        table.wf(),
    ensures
        r == confusable_spec(*table, a@, b@),
{
    let mut skeleton_a = a.skeleton_chars(table);
    let mut skeleton_b = b.skeleton_chars(table);
    loop
        invariant
            skeleton_a.chars@ == skeleton_spec(*table, a@),
            skeleton_b.chars@ == skeleton_spec(*table, b@),
            skeleton_a.pos == skeleton_b.pos,
            skeleton_a.pos <= skeleton_a.chars@.len(),
            skeleton_b.pos <= skeleton_b.chars@.len(),
            skeleton_a.chars@.subrange(0, skeleton_a.pos as int) == skeleton_b.chars@.subrange(
                0,
                skeleton_b.pos as int,
            ),
        decreases skeleton_a.chars@.len() - skeleton_a.pos,
    {
        let ghost p: int = skeleton_a.pos as int;
        let x = skeleton_a.next();
        let y = skeleton_b.next();
        match (x, y) {
            (None, None) => {
                assert(skeleton_a.chars@.subrange(0, p) =~= skeleton_a.chars@);
                assert(skeleton_b.chars@.subrange(0, p) =~= skeleton_b.chars@);
                return true;
            },
            (Some(cx), Some(cy)) => {
                if cx != cy {
                    assert(skeleton_a.chars@[p] != skeleton_b.chars@[p]);
                    return false;
                }
                assert(skeleton_a.chars@.subrange(0, p + 1) =~= skeleton_b.chars@.subrange(
                    0,
                    p + 1,
                ));
            },
            (Some(_), None) => {
                assert(skeleton_a.chars@.len() > p && skeleton_b.chars@.len() == p);
                return false;
            },
            (None, Some(_)) => {
                assert(skeleton_a.chars@.len() == p && skeleton_b.chars@.len() > p);
                return false;
            },
        }
    }
}

/// Determinism of the skeleton transform: any two results of skeletonizing
/// the same sequence under the same table are identical.
pub proof fn lemma_skeleton_deterministic(
    t: ConfusablesTable,
    s: Seq<char>,
    r1: Seq<char>,
    r2: Seq<char>,
)
    requires
        r1 == skeleton_spec(t, s),
        r2 == skeleton_spec(t, s),
    ensures
        r1 == r2,
{
}

/// Reflexivity of confusability: every sequence is confusable with itself.
pub proof fn lemma_confusable_reflexive(t: ConfusablesTable, s: Seq<char>)
    ensures
        confusable_spec(t, s, s),
{
}

/// Symmetry of confusability: the comparison does not depend on the order of
/// its arguments.
pub proof fn lemma_confusable_symmetric(t: ConfusablesTable, a: Seq<char>, b: Seq<char>)
    ensures
        confusable_spec(t, a, b) == confusable_spec(t, b, a),
{
}

/// Expansion leaves a sequence unchanged when none of its characters is a
/// table key.
pub proof fn lemma_expand_all_identity(t: ConfusablesTable, s: Seq<char>)
    requires
        forall|i: int| 0 <= i < s.len() ==> !t.has_key((#[trigger] s[i]) as u32),
    ensures
        expand_all(t, s) == s,
    decreases s.len(),
{
    if s.len() > 0 {
        assert(!t.has_key(s[0] as u32));
        lemma_expand_all_identity(t, s.drop_first());
        assert(expand_all(t, s) =~= s);
    } else {
        assert(expand_all(t, s) =~= s);
    }
}

/// Idempotence of the skeleton transform: a sequence that is already
/// canonically decomposed and contains no table key is a fixed point. Every
/// skeleton the pipeline emits is canonically decomposed; when it also
/// contains no table key, skeletonizing it again returns it unchanged.
pub proof fn lemma_skeleton_idempotent(t: ConfusablesTable, skel: Seq<char>)
    requires
        nfd_of(skel) == skel,
        forall|i: int| 0 <= i < skel.len() ==> !t.has_key((#[trigger] skel[i]) as u32),
    ensures
        skeleton_spec(t, skel) == skel,
{
    lemma_expand_all_identity(t, skel);
}

} // verus!
