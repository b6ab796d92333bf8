//! Response header lists and the fixed set of security headers.
//!
//! A header list holds name and value pairs in order. Names are compared
//! without regard to ASCII case. Setting a header drops every entry of the
//! same name and appends the new one, so the name occurs exactly once.

use crate::text::chars_of;
use vstd::prelude::*;
use vstd::string::StringExecFns;

verus! {

/// One header line.
pub struct Header {
    pub name: String,
    pub value: String,
}

/// A header line as plain text.
pub struct HeaderView {
    pub name: Seq<char>,
    pub value: Seq<char>,
}

impl View for Header {
    type V = HeaderView;

    open spec fn view(&self) -> HeaderView {
        HeaderView { name: self.name@, value: self.value@ }
    }
}

/// The lines of a header list as plain text.
pub open spec fn lines(list: Seq<Header>) -> Seq<HeaderView> {
    Seq::new(list.len(), |i: int| list[i]@)
}

/// The lowercase form of an ASCII letter; every other character is itself.
pub open spec fn fold_case(c: char) -> char {
    if 'A' <= c && c <= 'Z' {
        ((c as u8) + 32) as char
    } else {
        c
    }
}

/// Two header names are the same name.
pub open spec fn same_name(left: Seq<char>, right: Seq<char>) -> bool {
    left.len() == right.len() && forall|i: int|
        0 <= i < left.len() ==> fold_case(#[trigger] left[i]) == fold_case(right[i])
}

/// The list with `name` set to `value`: the entries of other names, in
/// their order, followed by the new entry.
pub open spec fn with_header(list: Seq<HeaderView>, name: Seq<char>, value: Seq<char>) -> Seq<
    HeaderView,
> {
    list.filter(|line: HeaderView| !same_name(line.name, name)).push(HeaderView { name, value })
}

/// The headers added to every proxied response.
pub open spec fn security_headers() -> Seq<HeaderView> {
    seq![
        HeaderView {
            name: "Strict-Transport-Security"@,
            value: "max-age=31536000; includeSubDomains; preload"@,
        },
        HeaderView { name: "X-Frame-Options"@, value: "DENY"@ },
        HeaderView { name: "X-Content-Type-Options"@, value: "nosniff"@ },
        HeaderView { name: "Content-Security-Policy"@, value: "default-src 'self'"@ },
    ]
}

/// The list after the security headers were set, one after the other.
pub open spec fn with_security_headers(list: Seq<HeaderView>) -> Seq<HeaderView> {
    let fixed = security_headers();
    with_header(
        with_header(
            with_header(with_header(list, fixed[0].name, fixed[0].value), fixed[1].name, fixed[1].value),
            fixed[2].name,
            fixed[2].value,
        ),
        fixed[3].name,
        fixed[3].value,
    )
}

/// Folds an ASCII capital to its small letter.
fn fold(c: char) -> (folded: char)
    ensures
        folded == fold_case(c),
{
    if 'A' <= c && c <= 'Z' {
        (((c as u8) + 32) as char)
    } else {
        c
    }
}

/// Whether two header names are the same name.
pub fn names_match(left: &str, right: &str) -> (same: bool)
    ensures
        same == same_name(left@, right@),
{
    let left_chars = chars_of(left);
    let right_chars = chars_of(right);
    if left_chars.len() != right_chars.len() {
        return false;
    }
    let mut i: usize = 0;
    while i < left_chars.len()
        invariant
            i <= left_chars.len(),
            left_chars.len() == right_chars.len(),
            left_chars@ == left@,
            right_chars@ == right@,
            forall|k: int| 0 <= k < i ==> fold_case(#[trigger] left_chars@[k]) == fold_case(right_chars@[k]),
        decreases left_chars.len() - i,
    {
        if fold(left_chars[i]) != fold(right_chars[i]) {
            assert(fold_case(left@[i as int]) != fold_case(right@[i as int]));
            return false;
        }
        i += 1;
    }
    true
}

/// Sets `name` to `value` in `list`: entries of the same name are dropped
/// and the new entry is appended.
pub fn set_header(list: &mut Vec<Header>, name: &str, value: &str)
    ensures
        lines(final(list)@) == with_header(lines(old(list)@), name@, value@),
{
    let ghost other = |line: HeaderView| !same_name(line.name, name@);
    let ghost before = lines(list@);
    let mut kept: Vec<Header> = Vec::new();
    let mut i: usize = 0;
    while i < list.len()
        invariant
            i <= list.len(),
            before == lines(list@),
            other == (|line: HeaderView| !same_name(line.name, name@)),
            lines(kept@) == before.take(i as int).filter(other),
        decreases list.len() - i,
    {
        let same = names_match(list[i].name.as_str(), name);
        proof {
            let seen = before.take(i as int);
            assert(before.take(i + 1) =~= seen.push(before[i as int]));
            seen.lemma_filter_push(before[i as int], other);
        }
        if !same {
            let ghost kept_before = lines(kept@);
            kept.push(
                Header {
                    name: String::from_str(list[i].name.as_str()),
                    value: String::from_str(list[i].value.as_str()),
                },
            );
            assert(lines(kept@) =~= kept_before.push(before[i as int]));
        }
        i += 1;
    }
    assert(before.take(i as int) =~= before);
    let ghost kept_before = lines(kept@);
    kept.push(Header { name: String::from_str(name), value: String::from_str(value) });
    assert(lines(kept@) =~= kept_before.push(HeaderView { name: name@, value: value@ }));
    *list = kept;
}

/// Sets the four security headers in `list`.
pub fn set_security_headers(list: &mut Vec<Header>)
    ensures
        lines(final(list)@) == with_security_headers(lines(old(list)@)),
{
    set_header(list, "Strict-Transport-Security", "max-age=31536000; includeSubDomains; preload");
    set_header(list, "X-Frame-Options", "DENY");
    set_header(list, "X-Content-Type-Options", "nosniff");
    set_header(list, "Content-Security-Policy", "default-src 'self'");
}

/// The name is that of one of the security headers.
pub open spec fn is_security_header_name(name: Seq<char>) -> bool {
    ||| same_name(name, security_headers()[0].name)
    ||| same_name(name, security_headers()[1].name)
    ||| same_name(name, security_headers()[2].name)
    ||| same_name(name, security_headers()[3].name)
}

/// Filtering twice is filtering once by both conditions.
proof fn lemma_filter_twice(
    list: Seq<HeaderView>,
    first: spec_fn(HeaderView) -> bool,
    second: spec_fn(HeaderView) -> bool,
    both: spec_fn(HeaderView) -> bool,
)
    requires
        forall|line: HeaderView| #[trigger] both(line) == (first(line) && second(line)),
    ensures
        list.filter(first).filter(second) == list.filter(both),
    decreases list.len(),
{
    if list.len() == 0 {
        assert(list.filter(first) =~= list);
        assert(list.filter(both) =~= list);
    } else {
        let earlier = list.drop_last();
        let last = list.last();
        lemma_filter_twice(earlier, first, second, both);
        assert(list =~= earlier.push(last));
        earlier.lemma_filter_push(last, first);
        earlier.lemma_filter_push(last, both);
        assert(both(last) == (first(last) && second(last)));
        if first(last) {
            earlier.filter(first).lemma_filter_push(last, second);
        }
    }
}

/// Setting the security headers replaces them and nothing else: what comes
/// out is every line of another name, in its order, followed by the four
/// security headers. So each of them is present exactly once, with the
/// fixed value, whatever the response carried and under whichever snapshot
/// the request was judged.
pub proof fn lemma_security_headers_replace(list: Seq<HeaderView>)
    ensures
        with_security_headers(list) == list.filter(
            |line: HeaderView| !is_security_header_name(line.name),
        ) + security_headers(),
{
    let fixed = security_headers();
    let f0 = |line: HeaderView| !same_name(line.name, fixed[0].name);
    let f1 = |line: HeaderView| !same_name(line.name, fixed[1].name);
    let f2 = |line: HeaderView| !same_name(line.name, fixed[2].name);
    let f3 = |line: HeaderView| !same_name(line.name, fixed[3].name);
    let g1 = |line: HeaderView| f0(line) && f1(line);
    let g2 = |line: HeaderView| g1(line) && f2(line);
    let others = |line: HeaderView| !is_security_header_name(line.name);
    reveal_strlit("Strict-Transport-Security");
    reveal_strlit("X-Frame-Options");
    reveal_strlit("X-Content-Type-Options");
    reveal_strlit("Content-Security-Policy");
    assert(fixed[0].name.len() == 25);
    assert(fixed[1].name.len() == 15);
    assert(fixed[2].name.len() == 22);
    assert(fixed[3].name.len() == 23);

    let kept0 = list.filter(f0);
    let stage1 = kept0.push(fixed[0]);
    assert(stage1 == with_header(list, fixed[0].name, fixed[0].value));

    kept0.lemma_filter_push(fixed[0], f1);
    let kept1 = kept0.filter(f1);
    let stage2 = kept1.push(fixed[0]).push(fixed[1]);
    assert(stage2 == with_header(stage1, fixed[1].name, fixed[1].value));

    kept1.lemma_filter_push(fixed[0], f2);
    kept1.push(fixed[0]).lemma_filter_push(fixed[1], f2);
    let kept2 = kept1.filter(f2);
    let stage3 = kept2.push(fixed[0]).push(fixed[1]).push(fixed[2]);
    assert(stage3 == with_header(stage2, fixed[2].name, fixed[2].value));

    kept2.lemma_filter_push(fixed[0], f3);
    kept2.push(fixed[0]).lemma_filter_push(fixed[1], f3);
    kept2.push(fixed[0]).push(fixed[1]).lemma_filter_push(fixed[2], f3);
    let kept3 = kept2.filter(f3);
    let stage4 = kept3.push(fixed[0]).push(fixed[1]).push(fixed[2]).push(fixed[3]);
    assert(stage4 == with_header(stage3, fixed[3].name, fixed[3].value));

    lemma_filter_twice(list, f0, f1, g1);
    lemma_filter_twice(list, g1, f2, g2);
    lemma_filter_twice(list, g2, f3, others);
    assert(kept3 == list.filter(others));
    assert(stage4 =~= list.filter(others) + fixed);
}

} // verus!
