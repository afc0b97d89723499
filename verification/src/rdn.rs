//! Reverse-domain names: the validation grammar, its errors, and the
//! projection of a valid name onto a path.

use vstd::prelude::*;
use vstd::string::*;

verus! {

/// The longest name accepted, in characters.
pub const MAX_LENGTH: usize = 255;

/// Whether `char::is_numeric` holds of `c` (the Unicode categories Nd, Nl, No).
pub uninterp spec fn unicode_numeric(c: char) -> bool;

/// Whether `char::is_alphanumeric` holds of `c`.
pub uninterp spec fn unicode_alphanumeric(c: char) -> bool;

/// Calls `char::is_numeric`. The contract only names the answer: the Unicode
/// tables behind it are not restated here.
#[verifier::external_body]
fn is_numeric(c: char) -> (b: bool)
    ensures
        b == unicode_numeric(c),
{
    c.is_numeric()
}

/// Calls `char::is_alphanumeric`. The contract names the answer, and says of
/// the slash, which is neither a letter nor a number, that the answer is no.
#[verifier::external_body]
fn is_alphanumeric(c: char) -> (b: bool)
    ensures
        b == unicode_alphanumeric(c),
        c == '/' ==> !b,
{
    c.is_alphanumeric()
}

/// The reason a string is not a valid name.
#[derive(Debug, Clone, Copy, PartialEq, Eq, Structural)]
pub enum ApplicationRDNErrors {
    TooLong,
    Empty,
    MissingSeparators,
    DoubleSeparator,
    StartsWithNumeric,
    InvalidCharacter,
}

/// What each error says.
pub open spec fn error_text(e: ApplicationRDNErrors) -> Seq<char> {
    match e {
        ApplicationRDNErrors::TooLong => "An application RDN should be less than 255 characters in length"@,
        ApplicationRDNErrors::Empty => "An application RDN should not be an empty string "@,
        ApplicationRDNErrors::MissingSeparators => "An application RDN must have at least one separating character: '.'"@,
        ApplicationRDNErrors::DoubleSeparator => "An application RDN must not have two separating characters adjacent together e.g: 'test..com'"@,
        ApplicationRDNErrors::StartsWithNumeric => "An applications RDN must not have a segment that begins with a numeric character e.g: 'test.9hello.com"@,
        ApplicationRDNErrors::InvalidCharacter => "An application RDN must not have segments composed of anything other than alphanumerics and underscores"@,
    }
}

impl ApplicationRDNErrors {
    /// The error in words.
    pub fn message(&self) -> (text: String)
        ensures
            text@ == error_text(*self),
    {
        match self {
            ApplicationRDNErrors::TooLong => String::from_str(
                "An application RDN should be less than 255 characters in length",
            ),
            ApplicationRDNErrors::Empty => String::from_str(
                "An application RDN should not be an empty string ",
            ),
            ApplicationRDNErrors::MissingSeparators => String::from_str(
                "An application RDN must have at least one separating character: '.'",
            ),
            ApplicationRDNErrors::DoubleSeparator => String::from_str(
                "An application RDN must not have two separating characters adjacent together e.g: 'test..com'",
            ),
            ApplicationRDNErrors::StartsWithNumeric => String::from_str(
                "An applications RDN must not have a segment that begins with a numeric character e.g: 'test.9hello.com",
            ),
            ApplicationRDNErrors::InvalidCharacter => String::from_str(
                "An application RDN must not have segments composed of anything other than alphanumerics and underscores",
            ),
        }
    }
}

/// The labels of `s`: the pieces between its dots, in order. A string without
/// a dot is one label; a leading, trailing or doubled dot leaves an empty one.
pub open spec fn segments(s: Seq<char>) -> Seq<Seq<char>>
    decreases s.len(),
{
    if s.len() == 0 {
        seq![Seq::<char>::empty()]
    } else {
        let before = segments(s.drop_last());
        if s.last() == '.' {
            before.push(Seq::<char>::empty())
        } else {
            before.drop_last().push(before.last().push(s.last()))
        }
    }
}

/// A character that may occur in a name.
pub open spec fn allowed_char(c: char) -> bool {
    unicode_alphanumeric(c) || c == '_' || c == '.'
}

/// Whether a label of `s` is empty.
pub open spec fn has_empty_segment(s: Seq<char>) -> bool {
    exists|i: int| 0 <= i < segments(s).len() && (#[trigger] segments(s)[i]).len() == 0
}

/// Whether a label of `s` begins with a numeric character.
pub open spec fn has_numeric_start(s: Seq<char>) -> bool {
    exists|i: int|
        0 <= i < segments(s).len() && (#[trigger] segments(s)[i]).len() > 0 && unicode_numeric(
            segments(s)[i][0],
        )
}

/// Whether `s` holds a character that no name may hold.
pub open spec fn has_invalid_char(s: Seq<char>) -> bool {
    exists|i: int| 0 <= i < s.len() && !allowed_char(#[trigger] s[i])
}

/// The first rule that `s` breaks, or `None` where it breaks none.
pub open spec fn rdn_check(s: Seq<char>) -> Option<ApplicationRDNErrors> {
    if s.len() > MAX_LENGTH {
        Some(ApplicationRDNErrors::TooLong)
    } else if s.len() == 0 {
        Some(ApplicationRDNErrors::Empty)
    } else if !s.contains('.') {
        Some(ApplicationRDNErrors::MissingSeparators)
    } else if has_empty_segment(s) {
        Some(ApplicationRDNErrors::DoubleSeparator)
    } else if has_numeric_start(s) {
        Some(ApplicationRDNErrors::StartsWithNumeric)
    } else if has_invalid_char(s) {
        Some(ApplicationRDNErrors::InvalidCharacter)
    } else {
        None
    }
}

/// The texts of a list of strings.
pub open spec fn texts(v: Seq<String>) -> Seq<Seq<char>> {
    Seq::new(v.len(), |i: int| v[i]@)
}

/// Splits `name` at its dots.
fn split_segments(name: &str) -> (segs: Vec<String>)
    ensures
        texts(segs@) == segments(name@),
{
    let n: usize = name.unicode_len();
    let mut segs: Vec<String> = Vec::new();
    let mut start: usize = 0;
    let mut i: usize = 0;
    while i < n
        invariant
            n == name@.len(),
            start <= i <= n,
            segs@.len() + 1 == segments(name@.take(i as int)).len(),
            texts(segs@) == segments(name@.take(i as int)).drop_last(),
            segments(name@.take(i as int)).last() == name@.subrange(start as int, i as int),
        decreases n - i,
    {
        let c = name.get_char(i);
        proof {
            let next = name@.take(i + 1);
            assert(next.drop_last() == name@.take(i as int));
            assert(next.last() == c);
            let before = segments(name@.take(i as int));
            if c == '.' {
                assert(segments(next) == before.push(Seq::<char>::empty()));
            } else {
                assert(segments(next) == before.drop_last().push(before.last().push(c)));
            }
        }
        if c == '.' {
            let seg = String::from_str(name.substring_char(start, i));
            let ghost prev = segs@;
            segs.push(seg);
            start = i + 1;
            proof {
                let before = segments(name@.take(i as int));
                let next = segments(name@.take(i + 1));
                assert(texts(segs@) =~= texts(prev).push(seg@));
                assert(before =~= before.drop_last().push(before.last()));
                assert(next.drop_last() =~= before);
                assert(name@.subrange(start as int, i + 1) =~= Seq::<char>::empty());
            }
        } else {
            proof {
                let before = segments(name@.take(i as int));
                let next = segments(name@.take(i + 1));
                assert(next.drop_last() =~= before.drop_last());
                assert(name@.subrange(start as int, i + 1) =~= name@.subrange(
                    start as int,
                    i as int,
                ).push(c));
            }
        }
        i = i + 1;
    }
    let seg = String::from_str(name.substring_char(start, n));
    let ghost prev = segs@;
    segs.push(seg);
    proof {
        assert(name@.take(n as int) =~= name@);
        let all = segments(name@);
        assert(texts(segs@) =~= texts(prev).push(seg@));
        assert(all =~= all.drop_last().push(all.last()));
    }
    segs
}

/// Whether some text of `segs` is empty.
fn any_empty(segs: &Vec<String>) -> (found: bool)
    ensures
        found == exists|i: int| 0 <= i < segs@.len() && (#[trigger] texts(segs@)[i]).len() == 0,
{
    let mut k: usize = 0;
    while k < segs.len()
        invariant
            k <= segs@.len(),
            forall|i: int| 0 <= i < k ==> (#[trigger] texts(segs@)[i]).len() > 0,
        decreases segs@.len() - k,
    {
        if segs[k].as_str().unicode_len() == 0 {
            assert(texts(segs@)[k as int].len() == 0);
            return true;
        }
        k = k + 1;
    }
    false
}

/// Whether some non-empty text of `segs` begins with a numeric character.
fn any_numeric_start(segs: &Vec<String>) -> (found: bool)
    ensures
        found == exists|i: int|
            0 <= i < segs@.len() && (#[trigger] texts(segs@)[i]).len() > 0 && unicode_numeric(
                texts(segs@)[i][0],
            ),
{
    let mut k: usize = 0;
    while k < segs.len()
        invariant
            k <= segs@.len(),
            forall|i: int|
                0 <= i < k ==> !((#[trigger] texts(segs@)[i]).len() > 0 && unicode_numeric(
                    texts(segs@)[i][0],
                )),
        decreases segs@.len() - k,
    {
        let seg = segs[k].as_str();
        if seg.unicode_len() > 0 && is_numeric(seg.get_char(0)) {
            assert(texts(segs@)[k as int] == seg@);
            return true;
        }
        assert(texts(segs@)[k as int] == seg@);
        k = k + 1;
    }
    false
}

/// Scans `name` (of `n` characters): whether it holds a dot, and whether it
/// holds a character that no name may hold. A slash is such a character.
fn scan_chars(name: &str, n: usize) -> (found: (bool, bool))
    requires
        n == name@.len(),
    ensures
        found.0 == name@.contains('.'),
        found.1 == has_invalid_char(name@),
        name@.contains('/') ==> found.1,
{
    let mut dot = false;
    let mut invalid = false;
    let mut i: usize = 0;
    while i < n
        invariant
            n == name@.len(),
            i <= n,
            dot == exists|j: int| 0 <= j < i && name@[j] == '.',
            invalid == exists|j: int| 0 <= j < i && !allowed_char(#[trigger] name@[j]),
            forall|j: int| 0 <= j < i && name@[j] == '/' ==> !allowed_char(#[trigger] name@[j]),
        decreases n - i,
    {
        let c = name.get_char(i);
        if c == '.' {
            dot = true;
        } else if c != '_' && !is_alphanumeric(c) {
            invalid = true;
        }
        i = i + 1;
    }
    (dot, invalid)
}

/// A validated reverse-domain name.
#[derive(Debug, PartialOrd)]
pub struct ApplicationRDN {
    name: String,
}

impl View for ApplicationRDN {
    type V = Seq<char>;

    closed spec fn view(&self) -> Seq<char> {
        self.name@
    }
}

impl PartialEq for ApplicationRDN {
    fn eq(&self, other: &Self) -> (same: bool) {
        self.name == other.name
    }
}

/// Two names are equal where their texts are.
impl vstd::std_specs::cmp::PartialEqSpecImpl for ApplicationRDN {
    open spec fn obeys_eq_spec() -> bool {
        true
    }

    open spec fn eq_spec(&self, other: &Self) -> bool {
        self@ == other@
    }
}

impl Clone for ApplicationRDN {
    fn clone(&self) -> (copy: Self)
        ensures
            copy@ == self@,
    {
        proof {
            use_type_invariant(self);
        }
        ApplicationRDN { name: self.name.clone() }
    }
}

impl ApplicationRDN {
    #[verifier::type_invariant]
    spec fn well_formed(self) -> bool {
        rdn_check(self.name@) is None && !self.name@.contains('/')
    }

    /// Validates `name`. The rules are tried in the order of `rdn_check`, and
    /// the first one broken is the error; a name that breaks none is kept
    /// letter for letter.
    pub fn new(name: &str) -> (result: Result<ApplicationRDN, ApplicationRDNErrors>)
        ensures
            match rdn_check(name@) {
                Some(e) => result is Err && result->Err_0 == e,
                None => result is Ok && result->Ok_0@ == name@,
            },
            name@.len() > MAX_LENGTH ==> result is Err && result->Err_0
                == ApplicationRDNErrors::TooLong,
    {
        let n: usize = name.unicode_len();
        if n > MAX_LENGTH {
            return Err(ApplicationRDNErrors::TooLong);
        }
        if n == 0 {
            return Err(ApplicationRDNErrors::Empty);
        }
        let (dot, invalid) = scan_chars(name, n);
        if !dot {
            return Err(ApplicationRDNErrors::MissingSeparators);
        }
        let segs = split_segments(name);
        if any_empty(&segs) {
            return Err(ApplicationRDNErrors::DoubleSeparator);
        }
        if any_numeric_start(&segs) {
            return Err(ApplicationRDNErrors::StartsWithNumeric);
        }
        if invalid {
            return Err(ApplicationRDNErrors::InvalidCharacter);
        }
        Ok(ApplicationRDN { name: String::from_str(name) })
    }

    /// The name as it was given. Every name that exists is valid: it breaks
    /// no rule of `rdn_check`, and so holds no slash.
    pub fn name(&self) -> (name: &str)
        ensures
            name@ == self@,
            rdn_check(self@) is None,
            !self@.contains('/'),
    {
        proof {
            use_type_invariant(self);
        }
        self.name.as_str()
    }

    /// The labels of the name, left to right: one path segment each.
    pub fn as_path(&self) -> (path: Vec<String>)
        ensures
            texts(path@) == segments(self@),
    {
        split_segments(self.name.as_str())
    }

    /// The labels of the name joined onto `prefix`, with `/` between: the
    /// prefix, a slash unless the prefix is empty or ends in one, and the name
    /// with a slash for each dot.
    pub fn as_path_with_prefix(&self, prefix: &str) -> (path: String)
        ensures
            path@ == join_path(prefix@, segments(self@)),
            path@ == push_segment(prefix@, slashed(self@)),
    {
        proof {
            use_type_invariant(self);
            lemma_empty_segment_is_misplaced_dot(self@);
            lemma_path_is_slashed_name(prefix@, self@);
        }
        let segs = split_segments(self.name.as_str());
        let mut path = String::from_str(prefix);
        let mut k: usize = 0;
        while k < segs.len()
            invariant
                k <= segs@.len(),
                path@ == join_path(prefix@, texts(segs@).take(k as int)),
            decreases segs@.len() - k,
        {
            proof {
                let upto = texts(segs@).take(k + 1);
                assert(upto.drop_last() =~= texts(segs@).take(k as int));
                assert(upto.last() == segs@[k as int]@);
            }
            let len: usize = path.as_str().unicode_len();
            if len > 0 && path.as_str().get_char(len - 1) != '/' {
                proof {
                    reveal_strlit("/");
                    assert("/"@ =~= seq!['/']);
                    assert(path@ + seq!['/'] =~= path@.push('/'));
                }
                path.append("/");
            }
            path.append(segs[k].as_str());
            k = k + 1;
        }
        proof {
            assert(texts(segs@).take(segs@.len() as int) =~= texts(segs@));
        }
        path
    }
}

/// `base` with one more segment: a `/` goes between, unless `base` is empty or
/// ends in one already.
pub open spec fn push_segment(base: Seq<char>, seg: Seq<char>) -> Seq<char> {
    if base.len() > 0 && base.last() != '/' {
        base.push('/') + seg
    } else {
        base + seg
    }
}

/// `base` with the segments `segs` joined on, in order.
pub open spec fn join_path(base: Seq<char>, segs: Seq<Seq<char>>) -> Seq<char>
    decreases segs.len(),
{
    if segs.len() == 0 {
        base
    } else {
        push_segment(join_path(base, segs.drop_last()), segs.last())
    }
}

/// A string of more than `MAX_LENGTH` characters is too long, whatever it holds.
pub proof fn lemma_long_is_too_long(s: Seq<char>)
    requires
        s.len() > MAX_LENGTH,
    ensures
        rdn_check(s) == Some(ApplicationRDNErrors::TooLong),
{
}

/// Whether two dots stand side by side in `s`.
pub open spec fn has_adjacent_dots(s: Seq<char>) -> bool {
    exists|i: int| 0 <= i < s.len() - 1 && #[trigger] s[i] == '.' && s[i + 1] == '.'
}

/// Whether a character that begins `s`, or follows a dot in it, is numeric.
pub open spec fn has_numeric_after_dot(s: Seq<char>) -> bool {
    exists|i: int|
        0 <= i < s.len() && #[trigger] s[i] != '.' && unicode_numeric(s[i]) && (i == 0 || s[i - 1]
            == '.')
}

/// Whether one of the labels of `s` before the last is empty.
pub open spec fn has_empty_inner_segment(s: Seq<char>) -> bool {
    exists|i: int| 0 <= i < segments(s).len() - 1 && (#[trigger] segments(s)[i]).len() == 0
}

/// The last label is what follows the last dot, and an earlier label is
/// empty exactly where the string begins with a dot or has two side by side.
proof fn lemma_empty_segments(s: Seq<char>)
    ensures
        segments(s).len() >= 1,
        segments(s).last().len() == 0 <==> (s.len() == 0 || s.last() == '.'),
        has_empty_inner_segment(s) <==> ((s.len() > 0 && s[0] == '.') || has_adjacent_dots(s)),
    decreases s.len(),
{
    if s.len() > 0 {
        let t = s.drop_last();
        let c = s.last();
        lemma_empty_segments(t);
        let before = segments(t);
        let after = segments(s);
        assert(forall|i: int| 0 <= i < t.len() ==> t[i] == s[i]);
        if c == '.' {
            assert(after == before.push(Seq::<char>::empty()));
            assert(forall|i: int| 0 <= i < before.len() ==> after[i] == before[i]);
            if has_empty_inner_segment(s) {
                let i = choose|i: int|
                    0 <= i < after.len() - 1 && (#[trigger] segments(s)[i]).len() == 0;
                assert(before[i].len() == 0);
                if i < before.len() - 1 {
                    assert(has_empty_inner_segment(t));
                    if has_adjacent_dots(t) {
                        let j = choose|j: int|
                            0 <= j < t.len() - 1 && #[trigger] t[j] == '.' && t[j + 1] == '.';
                        assert(s[j] == '.' && s[j + 1] == '.');
                    }
                } else if t.len() > 0 {
                    assert(s[t.len() - 1] == '.' && s[t.len() - 1 + 1] == '.');
                }
            }
            if (s.len() > 0 && s[0] == '.') || has_adjacent_dots(s) {
                if t.len() == 0 {
                    assert(after[0].len() == 0);
                } else if t.last() == '.' {
                    assert(after[before.len() - 1].len() == 0);
                } else {
                    if has_adjacent_dots(s) {
                        let j = choose|j: int|
                            0 <= j < s.len() - 1 && #[trigger] s[j] == '.' && s[j + 1] == '.';
                        assert(j < t.len() - 1);
                        assert(t[j] == '.' && t[j + 1] == '.');
                    }
                    assert(has_empty_inner_segment(t));
                    let i = choose|i: int|
                        0 <= i < before.len() - 1 && (#[trigger] segments(t)[i]).len() == 0;
                    assert(after[i].len() == 0);
                }
            }
        } else {
            assert(after == before.drop_last().push(before.last().push(c)));
            assert(forall|i: int| 0 <= i < before.len() - 1 ==> after[i] == before[i]);
            assert(after.last() == before.last().push(c));
            if has_empty_inner_segment(s) {
                let i = choose|i: int|
                    0 <= i < after.len() - 1 && (#[trigger] segments(s)[i]).len() == 0;
                assert(segments(t)[i].len() == 0);
                assert(has_empty_inner_segment(t));
                if has_adjacent_dots(t) {
                    let j = choose|j: int|
                        0 <= j < t.len() - 1 && #[trigger] t[j] == '.' && t[j + 1] == '.';
                    assert(s[j] == '.' && s[j + 1] == '.');
                }
            }
            if (s.len() > 0 && s[0] == '.') || has_adjacent_dots(s) {
                if has_adjacent_dots(s) {
                    let j = choose|j: int|
                        0 <= j < s.len() - 1 && #[trigger] s[j] == '.' && s[j + 1] == '.';
                    assert(j + 1 < t.len());
                    assert(t[j] == '.' && t[j + 1] == '.');
                }
                assert(has_empty_inner_segment(t));
                let i = choose|i: int|
                    0 <= i < before.len() - 1 && (#[trigger] segments(t)[i]).len() == 0;
                assert(after[i].len() == 0);
            }
        }
    }
}

/// A label is empty exactly where the string is empty, begins or ends with a
/// dot, or has two dots side by side.
pub proof fn lemma_empty_segment_is_misplaced_dot(s: Seq<char>)
    ensures
        has_empty_segment(s) <==> (s.len() == 0 || s[0] == '.' || s.last() == '.'
            || has_adjacent_dots(s)),
{
    lemma_empty_segments(s);
    let segs = segments(s);
    if has_empty_segment(s) {
        let i = choose|i: int| 0 <= i < segs.len() && (#[trigger] segments(s)[i]).len() == 0;
        if i < segs.len() - 1 {
            assert(has_empty_inner_segment(s));
        }
    }
    if has_empty_inner_segment(s) {
        let i = choose|i: int| 0 <= i < segs.len() - 1 && (#[trigger] segments(s)[i]).len() == 0;
        assert(segments(s)[i].len() == 0);
    }
    if s.len() == 0 || s.last() == '.' {
        assert(segments(s)[segs.len() - 1].len() == 0);
    }
}

/// A label begins with a numeric character exactly where such a character
/// begins the string or follows a dot.
pub proof fn lemma_numeric_start_follows_dot(s: Seq<char>)
    ensures
        has_numeric_start(s) <==> has_numeric_after_dot(s),
    decreases s.len(),
{
    if s.len() > 0 {
        let t = s.drop_last();
        let c = s.last();
        lemma_numeric_start_follows_dot(t);
        lemma_empty_segments(t);
        let before = segments(t);
        let after = segments(s);
        let n = before.len() - 1;
        assert(forall|i: int| 0 <= i < t.len() ==> t[i] == s[i]);
        if c == '.' {
            assert(after == before.push(Seq::<char>::empty()));
            assert(forall|i: int| 0 <= i < before.len() ==> after[i] == before[i]);
        } else {
            assert(after == before.drop_last().push(before.last().push(c)));
            assert(forall|i: int| 0 <= i < n ==> after[i] == before[i]);
            assert(after[n] == before[n].push(c));
            if before[n].len() > 0 {
                assert(after[n][0] == before[n][0]);
            } else {
                assert(after[n][0] == c);
            }
        }
        if has_numeric_start(s) {
            let i = choose|i: int|
                0 <= i < after.len() && (#[trigger] segments(s)[i]).len() > 0 && unicode_numeric(
                    segments(s)[i][0],
                );
            if c != '.' && i == n && before[n].len() == 0 {
                assert(s[t.len() as int] != '.' && unicode_numeric(s[t.len() as int]));
                assert(has_numeric_after_dot(s));
            } else {
                assert(segments(t)[i].len() > 0 && unicode_numeric(segments(t)[i][0]));
                assert(has_numeric_start(t));
                let j = choose|j: int|
                    0 <= j < t.len() && #[trigger] t[j] != '.' && unicode_numeric(t[j]) && (j == 0
                        || t[j - 1] == '.');
                assert(s[j] != '.');
                assert(has_numeric_after_dot(s));
            }
        }
        if has_numeric_after_dot(s) {
            let j = choose|j: int|
                0 <= j < s.len() && #[trigger] s[j] != '.' && unicode_numeric(s[j]) && (j == 0
                    || s[j - 1] == '.');
            if j < t.len() {
                assert(t[j] != '.');
                assert(has_numeric_after_dot(t));
                let i = choose|i: int|
                    0 <= i < before.len() && (#[trigger] segments(t)[i]).len() > 0
                        && unicode_numeric(segments(t)[i][0]);
                assert(segments(s)[i].len() > 0 && unicode_numeric(segments(s)[i][0]));
            } else {
                assert(before[n].len() == 0);
                assert(segments(s)[n].len() > 0 && unicode_numeric(segments(s)[n][0]));
            }
        }
    } else {
        assert(segments(s)[0].len() == 0);
    }
}

/// `s` with a slash for each dot.
pub open spec fn slashed(s: Seq<char>) -> Seq<char> {
    Seq::new(s.len(), |i: int| if s[i] == '.' { '/' } else { s[i] })
}

/// Joining the labels of a name onto a prefix gives the prefix, a slash
/// unless the prefix is empty or ends in one, and the name with a slash for
/// each dot. It holds of every string that is not empty, does not begin with
/// a dot, has no two dots side by side and no slash: of every valid name
/// without a slash.
pub proof fn lemma_path_is_slashed_name(prefix: Seq<char>, s: Seq<char>)
    requires
        s.len() > 0,
        s[0] != '.',
        !has_adjacent_dots(s),
        !s.contains('/'),
    ensures
        join_path(prefix, segments(s)) == push_segment(prefix, slashed(s)),
    decreases s.len(),
{
    let t = s.drop_last();
    let c = s.last();
    let before = segments(t);
    let after = segments(s);
    lemma_empty_segments(t);
    assert(forall|i: int| 0 <= i < t.len() ==> t[i] == s[i]);
    assert(s.contains(c));
    if t.len() == 0 {
        assert(before =~= seq![Seq::<char>::empty()]);
        assert(after =~= seq![seq![c]]);
        assert(after.drop_last() =~= Seq::<Seq<char>>::empty());
        assert(slashed(s) =~= seq![c]);
        assert(join_path(prefix, after.drop_last()) == prefix);
    } else {
        assert(!has_adjacent_dots(t)) by {
            if has_adjacent_dots(t) {
                let j = choose|j: int|
                    0 <= j < t.len() - 1 && #[trigger] t[j] == '.' && t[j + 1] == '.';
                assert(s[j] == '.' && s[j + 1] == '.');
            }
        }
        assert(!t.contains('/')) by {
            if t.contains('/') {
                let j = choose|j: int| 0 <= j < t.len() && t[j] == '/';
                assert(s[j] == '/');
            }
        }
        lemma_path_is_slashed_name(prefix, t);
        let joined = join_path(prefix, before);
        assert(joined == push_segment(prefix, slashed(t)));
        assert(slashed(t).len() == t.len());
        assert(joined.last() == slashed(t).last());
        if c == '.' {
            assert(s[t.len() - 1] == t.last());
            assert(t.last() != '.') by {
                if t.last() == '.' {
                    assert(s[t.len() - 1] == '.' && s[t.len() - 1 + 1] == '.');
                }
            }
            assert(t.contains(t.last()));
            assert(after.drop_last() =~= before);
            assert(slashed(s) =~= slashed(t).push('/'));
            assert(joined.push('/') + Seq::<char>::empty() =~= joined.push('/'));
            assert(join_path(prefix, after) =~= joined.push('/'));
            assert(push_segment(prefix, slashed(s)) =~= joined.push('/'));
        } else {
            assert(after.drop_last() =~= before.drop_last());
            assert(after.last() == before.last().push(c));
            assert(slashed(s) =~= slashed(t).push(c));
            let base = join_path(prefix, before.drop_last());
            assert(push_segment(base, before.last().push(c)) =~= push_segment(
                base,
                before.last(),
            ).push(c));
            assert(push_segment(prefix, slashed(t).push(c)) =~= push_segment(
                prefix,
                slashed(t),
            ).push(c));
        }
    }
}

} // verus!
