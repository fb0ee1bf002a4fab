//! Player identifiers and the rule that tells the two schemes apart.

use vstd::prelude::*;

verus! {

/// Whether `c` is one of `0` to `9`.
pub open spec fn is_digit(c: char) -> bool {
    '0' <= c <= '9'
}

/// Whether `c` is a hexadecimal digit, in either case.
pub open spec fn is_hex_digit(c: char) -> bool {
    is_digit(c) || 'a' <= c <= 'f' || 'A' <= c <= 'F'
}

/// The four places at which a UUID carries a hyphen.
pub open spec fn is_hyphen_position(i: int) -> bool {
    i == 8 || i == 13 || i == 18 || i == 23
}

/// What a UUID-shaped text holds at place `i`.
pub open spec fn uuid_char_ok(i: int, c: char) -> bool {
    if is_hyphen_position(i) {
        c == '-'
    } else {
        is_hex_digit(c)
    }
}

/// The UUID shape: 36 characters, hexadecimal digits in groups of
/// 8, 4, 4, 4 and 12 with one hyphen between neighbouring groups.
pub open spec fn is_uuid_shape(s: Seq<char>) -> bool {
    &&& s.len() == 36
    &&& forall|i: int| 0 <= i < 36 ==> uuid_char_ok(i, #[trigger] s[i])
}

fn char_is_digit(c: char) -> (r: bool)
    ensures
        r == is_digit(c),
{
    '0' <= c && c <= '9'
}

fn char_is_hex_digit(c: char) -> (r: bool)
    ensures
        r == is_hex_digit(c),
{
    char_is_digit(c) || ('a' <= c && c <= 'f') || ('A' <= c && c <= 'F')
}

/// Tells whether `s` has the UUID shape.
pub fn is_uuid_format(s: &str) -> (r: bool)
    ensures
        r == is_uuid_shape(s@),
{
    let mut n: usize = 0;
    let mut ok = true;
    for c in it: s.chars()
        invariant
            it.seq() == s@,
            ok ==> n == it.index() && n <= 36,
            ok <==> (it.index() <= 36 && forall|i: int|
                0 <= i < it.index() ==> uuid_char_ok(i, #[trigger] s@[i])),
    {
        if ok {
            if n >= 36 {
                ok = false;
            } else {
                let hyphen = n == 8 || n == 13 || n == 18 || n == 23;
                if hyphen {
                    ok = c == '-';
                } else {
                    ok = char_is_hex_digit(c);
                }
                n = n + 1;
            }
        }
    }
    ok && n == 36
}

/// Whether every character of `s` is a decimal digit.
pub open spec fn all_digits(s: Seq<char>) -> bool {
    forall|i: int| 0 <= i < s.len() ==> is_digit(#[trigger] s[i])
}

/// The Steam64 shape: decimal digits only, at least 15 of them.
pub open spec fn is_steam64_shape(s: Seq<char>) -> bool {
    s.len() >= 15 && all_digits(s)
}

/// Tells whether `s` has the Steam64 shape.
pub fn is_steam64_format(s: &str) -> (r: bool)
    ensures
        r == is_steam64_shape(s@),
{
    let mut n: usize = 0;
    let mut ok = true;
    for c in it: s.chars()
        invariant
            it.seq() == s@,
            n <= 15,
            n <= it.index(),
            n < 15 ==> n == it.index(),
            ok <==> forall|i: int| 0 <= i < it.index() ==> is_digit(#[trigger] s@[i]),
    {
        if !char_is_digit(c) {
            ok = false;
        }
        if n < 15 {
            n = n + 1;
        }
    }
    ok && n >= 15
}

/// A Steam64 player identifier. It is expected to be a run of 15 or more
/// decimal digits, yet any text is accepted.
#[derive(Debug, PartialEq, Eq, Hash)]
pub struct Steam64Id(pub String);

impl View for Steam64Id {
    type V = Seq<char>;

    open spec fn view(&self) -> Seq<char> {
        self.0@
    }
}

impl Clone for Steam64Id {
    fn clone(&self) -> (r: Self)
        ensures
            r@ == self@,
    {
        Steam64Id(self.0.clone())
    }
}

impl From<String> for Steam64Id {
    fn from(value: String) -> (r: Self)
        ensures
            r@ == value@,
    {
        Steam64Id(value)
    }
}

impl vstd::std_specs::convert::FromSpecImpl<String> for Steam64Id {
    open spec fn obeys_from_spec() -> bool {
        true
    }

    open spec fn from_spec(value: String) -> Self {
        Steam64Id(value)
    }
}

impl<'a> From<&'a str> for Steam64Id {
    fn from(value: &'a str) -> (r: Self)
        ensures
            r@ == value@,
    {
        Steam64Id(value.to_owned())
    }
}

impl<'a> vstd::std_specs::convert::FromSpecImpl<&'a str> for Steam64Id {
    /// A fresh `String` has no name in specifications, so the result is
    /// stated by the `ensures` of `from` and not by `from_spec`.
    open spec fn obeys_from_spec() -> bool {
        false
    }

    open spec fn from_spec(value: &'a str) -> Self {
        arbitrary()
    }
}

impl AsRef<str> for Steam64Id {
    fn as_ref(&self) -> (r: &str)
        ensures
            r@ == self@,
    {
        self.0.as_str()
    }
}

/// An identifier that the service itself hands out. It is expected to be a
/// UUID, yet any text is accepted.
#[derive(Debug, PartialEq, Eq, Hash)]
pub struct LeetifyId(pub String);

impl View for LeetifyId {
    type V = Seq<char>;

    open spec fn view(&self) -> Seq<char> {
        self.0@
    }
}

impl Clone for LeetifyId {
    fn clone(&self) -> (r: Self)
        ensures
            r@ == self@,
    {
        LeetifyId(self.0.clone())
    }
}

impl From<String> for LeetifyId {
    fn from(value: String) -> (r: Self)
        ensures
            r@ == value@,
    {
        LeetifyId(value)
    }
}

impl vstd::std_specs::convert::FromSpecImpl<String> for LeetifyId {
    open spec fn obeys_from_spec() -> bool {
        true
    }

    open spec fn from_spec(value: String) -> Self {
        LeetifyId(value)
    }
}

impl<'a> From<&'a str> for LeetifyId {
    fn from(value: &'a str) -> (r: Self)
        ensures
            r@ == value@,
    {
        LeetifyId(value.to_owned())
    }
}

impl<'a> vstd::std_specs::convert::FromSpecImpl<&'a str> for LeetifyId {
    /// A fresh `String` has no name in specifications, so the result is
    /// stated by the `ensures` of `from` and not by `from_spec`.
    open spec fn obeys_from_spec() -> bool {
        false
    }

    open spec fn from_spec(value: &'a str) -> Self {
        arbitrary()
    }
}

impl AsRef<str> for LeetifyId {
    fn as_ref(&self) -> (r: &str)
        ensures
            r@ == self@,
    {
        self.0.as_str()
    }
}

/// A player identifier of either scheme.
#[derive(Debug, PartialEq, Eq, Hash)]
pub enum Id {
    Steam64(Steam64Id),
    Leetify(LeetifyId),
}

/// What an [`Id`] stands for: the scheme and the identifier's text.
pub enum IdView {
    Steam64(Seq<char>),
    Leetify(Seq<char>),
}

impl IdView {
    /// The identifier's text, whatever the scheme.
    pub open spec fn text(self) -> Seq<char> {
        match self {
            IdView::Steam64(s) => s,
            IdView::Leetify(s) => s,
        }
    }
}

impl View for Id {
    type V = IdView;

    open spec fn view(&self) -> IdView {
        match self {
            Id::Steam64(id) => IdView::Steam64(id@),
            Id::Leetify(id) => IdView::Leetify(id@),
        }
    }
}

/// The scheme that a raw text is taken for. A UUID-shaped text is a service
/// identifier and a text of the Steam64 shape a Steam64 identifier. Any other
/// text is taken for a service identifier as well: an unclear format is
/// accepted, not rejected.
pub open spec fn classify(s: Seq<char>) -> IdView {
    if is_uuid_shape(s) {
        IdView::Leetify(s)
    } else if is_steam64_shape(s) {
        IdView::Steam64(s)
    } else {
        IdView::Leetify(s)
    }
}

impl Clone for Id {
    fn clone(&self) -> (r: Self)
        ensures
            r@ == self@,
    {
        match self {
            Id::Steam64(id) => Id::Steam64(id.clone()),
            Id::Leetify(id) => Id::Leetify(id.clone()),
        }
    }
}

impl From<Steam64Id> for Id {
    fn from(id: Steam64Id) -> (r: Self)
        ensures
            r@ == IdView::Steam64(id@),
    {
        Id::Steam64(id)
    }
}

impl vstd::std_specs::convert::FromSpecImpl<Steam64Id> for Id {
    open spec fn obeys_from_spec() -> bool {
        true
    }

    open spec fn from_spec(id: Steam64Id) -> Self {
        Id::Steam64(id)
    }
}

impl From<LeetifyId> for Id {
    fn from(id: LeetifyId) -> (r: Self)
        ensures
            r@ == IdView::Leetify(id@),
    {
        Id::Leetify(id)
    }
}

impl vstd::std_specs::convert::FromSpecImpl<LeetifyId> for Id {
    open spec fn obeys_from_spec() -> bool {
        true
    }

    open spec fn from_spec(id: LeetifyId) -> Self {
        Id::Leetify(id)
    }
}

impl From<String> for Id {
    /// Takes the scheme from the text's shape.
    fn from(value: String) -> (r: Self)
        ensures
            r@ == classify(value@),
    {
        if is_uuid_format(value.as_str()) {
            Id::Leetify(LeetifyId(value))
        } else if is_steam64_format(value.as_str()) {
            Id::Steam64(Steam64Id(value))
        } else {
            Id::Leetify(LeetifyId(value))
        }
    }
}

impl vstd::std_specs::convert::FromSpecImpl<String> for Id {
    open spec fn obeys_from_spec() -> bool {
        true
    }

    open spec fn from_spec(value: String) -> Self {
        if is_uuid_shape(value@) {
            Id::Leetify(LeetifyId(value))
        } else if is_steam64_shape(value@) {
            Id::Steam64(Steam64Id(value))
        } else {
            Id::Leetify(LeetifyId(value))
        }
    }
}

impl<'a> From<&'a str> for Id {
    /// Takes the scheme from the text's shape.
    fn from(value: &'a str) -> (r: Self)
        ensures
            r@ == classify(value@),
    {
        Id::from(value.to_owned())
    }
}

impl<'a> vstd::std_specs::convert::FromSpecImpl<&'a str> for Id {
    /// A fresh `String` has no name in specifications, so the result is
    /// stated by the `ensures` of `from` and not by `from_spec`.
    open spec fn obeys_from_spec() -> bool {
        false
    }

    open spec fn from_spec(value: &'a str) -> Self {
        arbitrary()
    }
}

/// Whether every character of `s` is a hexadecimal digit.
pub open spec fn all_hex(s: Seq<char>) -> bool {
    forall|i: int| 0 <= i < s.len() ==> is_hex_digit(#[trigger] s[i])
}

/// The pieces that the hyphens of a text part it into, in their order. A
/// text without a hyphen is one piece, and each hyphen begins another, which
/// may be empty.
pub open spec fn hyphen_parts(s: Seq<char>) -> Seq<Seq<char>>
    decreases s.len(),
{
    if s.len() == 0 {
        seq![Seq::<char>::empty()]
    } else {
        let before = hyphen_parts(s.drop_last());
        if s.last() == '-' {
            before.push(Seq::<char>::empty())
        } else {
            before.drop_last().push(before.last().push(s.last()))
        }
    }
}

/// The pieces of a UUID: five groups of 8, 4, 4, 4 and 12 hexadecimal
/// digits.
pub open spec fn are_uuid_groups(parts: Seq<Seq<char>>) -> bool {
    &&& parts.len() == 5
    &&& parts[0].len() == 8
    &&& parts[1].len() == 4
    &&& parts[2].len() == 4
    &&& parts[3].len() == 4
    &&& parts[4].len() == 12
    &&& forall|k: int| 0 <= k < 5 ==> all_hex(#[trigger] parts[k])
}

/// The pieces put together again, with a hyphen between neighbours.
pub open spec fn hyphen_join(parts: Seq<Seq<char>>) -> Seq<char>
    decreases parts.len(),
{
    if parts.len() == 0 {
        Seq::<char>::empty()
    } else if parts.len() == 1 {
        parts[0]
    } else {
        hyphen_join(parts.drop_last()).push('-') + parts.last()
    }
}

/// Parting a text at its hyphens gives at least one piece, and joining the
/// pieces gives the text back.
pub proof fn lemma_hyphen_join_of_parts(s: Seq<char>)
    ensures
        hyphen_parts(s).len() >= 1,
        hyphen_join(hyphen_parts(s)) == s,
    decreases s.len(),
{
    if s.len() == 0 {
        assert(hyphen_join(hyphen_parts(s)) =~= s);
    } else {
        let t = s.drop_last();
        let before = hyphen_parts(t);
        lemma_hyphen_join_of_parts(t);
        let parts = hyphen_parts(s);
        if s.last() == '-' {
            assert(parts.drop_last() =~= before);
            assert(hyphen_join(parts) =~= t.push('-'));
        } else if before.len() == 1 {
            assert(parts =~= seq![before[0].push(s.last())]);
            assert(hyphen_join(parts) =~= t.push(s.last()));
        } else {
            assert(parts.drop_last() =~= before.drop_last());
            assert(hyphen_join(parts) =~= hyphen_join(before).push(s.last()));
        }
        assert(t.push(s.last()) =~= s);
    }
}

/// A run of characters without a hyphen lengthens the last piece and begins
/// no other.
pub proof fn lemma_hyphen_parts_of_run(s: Seq<char>, run: Seq<char>)
    requires
        forall|i: int| 0 <= i < run.len() ==> run[i] != '-',
    ensures
        hyphen_parts(s).len() >= 1,
        hyphen_parts(s + run) == hyphen_parts(s).drop_last().push(hyphen_parts(s).last() + run),
    decreases run.len(),
{
    lemma_hyphen_join_of_parts(s);
    let parts = hyphen_parts(s);
    if run.len() == 0 {
        assert(s + run =~= s);
        assert(parts.last() + run =~= parts.last());
        assert(parts.drop_last().push(parts.last()) =~= parts);
    } else {
        let shorter = run.drop_last();
        lemma_hyphen_parts_of_run(s, shorter);
        let whole = s + run;
        assert(whole.drop_last() =~= s + shorter);
        assert(whole.last() == run.last());
        let before = hyphen_parts(s + shorter);
        assert(before.drop_last() =~= parts.drop_last());
        assert(before.last().push(run.last()) =~= parts.last() + run);
    }
}

/// A hyphen after a text begins an empty piece.
pub proof fn lemma_hyphen_parts_of_hyphen(s: Seq<char>)
    ensures
        hyphen_parts(s.push('-')) == hyphen_parts(s).push(Seq::<char>::empty()),
{
    assert(s.push('-').drop_last() =~= s);
}

/// A text has the UUID shape exactly when its hyphens part it into five
/// groups of 8, 4, 4, 4 and 12 hexadecimal digits.
pub proof fn lemma_uuid_shape_is_five_groups(s: Seq<char>)
    ensures
        is_uuid_shape(s) <==> are_uuid_groups(hyphen_parts(s)),
{
    if is_uuid_shape(s) {
        let g0 = s.subrange(0, 8);
        let g1 = s.subrange(9, 13);
        let g2 = s.subrange(14, 18);
        let g3 = s.subrange(19, 23);
        let g4 = s.subrange(24, 36);
        let none = Seq::<char>::empty();
        assert(uuid_char_ok(8, s[8]) && uuid_char_ok(13, s[13]) && uuid_char_ok(18, s[18])
            && uuid_char_ok(23, s[23]));
        assert forall|i: int| 0 <= i < g0.len() implies is_hex_digit(#[trigger] g0[i]) by {
            assert(uuid_char_ok(i, s[i]));
        }
        assert forall|i: int| 0 <= i < g1.len() implies is_hex_digit(#[trigger] g1[i]) by {
            assert(uuid_char_ok(9 + i, s[9 + i]));
        }
        assert forall|i: int| 0 <= i < g2.len() implies is_hex_digit(#[trigger] g2[i]) by {
            assert(uuid_char_ok(14 + i, s[14 + i]));
        }
        assert forall|i: int| 0 <= i < g3.len() implies is_hex_digit(#[trigger] g3[i]) by {
            assert(uuid_char_ok(19 + i, s[19 + i]));
        }
        assert forall|i: int| 0 <= i < g4.len() implies is_hex_digit(#[trigger] g4[i]) by {
            assert(uuid_char_ok(24 + i, s[24 + i]));
        }
        let groups = seq![g0, g1, g2, g3, g4];
        assert forall|k: int| 0 <= k < 5 implies all_hex(#[trigger] groups[k]) by {
            assert(groups[0] == g0 && groups[1] == g1 && groups[2] == g2 && groups[3] == g3
                && groups[4] == g4);
        }

        let s0 = none + g0;
        lemma_hyphen_parts_of_run(none, g0);
        assert(hyphen_parts(none) =~= seq![none]);
        assert(hyphen_parts(s0) =~= seq![g0]);
        lemma_hyphen_parts_of_hyphen(s0);
        let s1 = s0.push('-') + g1;
        lemma_hyphen_parts_of_run(s0.push('-'), g1);
        assert(hyphen_parts(s1) =~= seq![g0, g1]);
        lemma_hyphen_parts_of_hyphen(s1);
        let s2 = s1.push('-') + g2;
        lemma_hyphen_parts_of_run(s1.push('-'), g2);
        assert(hyphen_parts(s2) =~= seq![g0, g1, g2]);
        lemma_hyphen_parts_of_hyphen(s2);
        let s3 = s2.push('-') + g3;
        lemma_hyphen_parts_of_run(s2.push('-'), g3);
        assert(hyphen_parts(s3) =~= seq![g0, g1, g2, g3]);
        lemma_hyphen_parts_of_hyphen(s3);
        let s4 = s3.push('-') + g4;
        lemma_hyphen_parts_of_run(s3.push('-'), g4);
        assert(hyphen_parts(s4) =~= groups);
        assert(s4 =~= s);
        assert(are_uuid_groups(groups));
    }
    if are_uuid_groups(hyphen_parts(s)) {
        let parts = hyphen_parts(s);
        lemma_hyphen_join_of_parts(s);
        let p1 = parts.drop_last();
        let p2 = p1.drop_last();
        let p3 = p2.drop_last();
        let p4 = p3.drop_last();
        assert(hyphen_join(p4) == parts[0]);
        assert(hyphen_join(p3) == hyphen_join(p4).push('-') + parts[1]);
        assert(hyphen_join(p2) == hyphen_join(p3).push('-') + parts[2]);
        assert(hyphen_join(p1) == hyphen_join(p2).push('-') + parts[3]);
        assert(hyphen_join(parts) == hyphen_join(p1).push('-') + parts[4]);
        assert(s.len() == 36);
        assert forall|i: int| 0 <= i < 36 implies uuid_char_ok(i, #[trigger] s[i]) by {
            assert(all_hex(parts[0]) && all_hex(parts[1]) && all_hex(parts[2]) && all_hex(
                parts[3],
            ) && all_hex(parts[4]));
            if i < 8 {
                assert(s[i] == parts[0][i]);
            } else if i == 8 {
            } else if i < 13 {
                assert(s[i] == parts[1][i - 9]);
            } else if i == 13 {
            } else if i < 18 {
                assert(s[i] == parts[2][i - 14]);
            } else if i == 18 {
            } else if i < 23 {
                assert(s[i] == parts[3][i - 19]);
            } else if i == 23 {
            } else {
                assert(s[i] == parts[4][i - 24]);
            }
        }
    }
}

/// No text has both shapes, so the order in which the two are tried does not
/// matter.
pub proof fn lemma_shapes_exclude_each_other(s: Seq<char>)
    ensures
        !(is_uuid_shape(s) && is_steam64_shape(s)),
{
    if is_uuid_shape(s) && is_steam64_shape(s) {
        assert(uuid_char_ok(8, s[8]));
        assert(is_digit(s[8]));
    }
}

/// Every text of the Steam64 shape is classified as a Steam64 identifier and
/// every UUID-shaped text as a service identifier; the identifier keeps the
/// text as it was.
pub proof fn lemma_classify_by_shape(s: Seq<char>)
    ensures
        is_steam64_shape(s) ==> classify(s) == IdView::Steam64(s),
        is_uuid_shape(s) ==> classify(s) == IdView::Leetify(s),
        classify(s) is Steam64 <==> is_steam64_shape(s),
        classify(s).text() == s,
{
    lemma_shapes_exclude_each_other(s);
}

} // verus!
