//! Stateless pagination: page arithmetic that clamps instead of failing, and
//! the correlation tokens that carry the page a control leads to.
use vstd::prelude::*;
use crate::commands::{help_last_page, registry, HELP_PAGE_SIZE};
use crate::routes::{feature_of, is_modal_route, InteractionRoute, PagerFeature};
use crate::text::{
    all_digits, chars_of, decimal, digit_char, digit_value, digits_value, find_trim_end, is_digit,
    lemma_trim_end_past, parse_u64, push_decimal, push_str, skip_whitespace, skip_ws, string_of,
    trim_end, u64_of,
};

verus! {

pub open spec fn clamp(page: u64, last_page: u64) -> u64 {
    if page > last_page {
        last_page
    } else {
        page
    }
}

/// The page after `current`, never past `last_page`.
pub open spec fn next_of(current: u64, last_page: u64) -> u64 {
    if current >= last_page {
        last_page
    } else {
        (current + 1) as u64
    }
}

/// The page before `current`, never below 0 nor past `last_page`.
pub open spec fn previous_of(current: u64, last_page: u64) -> u64 {
    clamp(
        if current == 0 {
            0
        } else {
            (current - 1) as u64
        },
        last_page,
    )
}

/// Brings a page index back into `[0, last_page]`, as after content shrank.
pub fn clamp_page(page: u64, last_page: u64) -> (r: u64)
    ensures
        r == clamp(page, last_page),
{
    if page > last_page {
        last_page
    } else {
        page
    }
}

/// The page after `current`; it stays at `last_page`.
pub fn next_page(current: u64, last_page: u64) -> (r: u64)
    ensures
        r == next_of(current, last_page),
{
    if current >= last_page {
        last_page
    } else {
        current + 1
    }
}

/// The page before `current`; it stays at 0, and never passes `last_page`.
pub fn previous_page(current: u64, last_page: u64) -> (r: u64)
    ensures
        r == previous_of(current, last_page),
{
    let p = if current == 0 {
        0
    } else {
        current - 1
    };
    clamp_page(p, last_page)
}

/// `s` without leading and trailing whitespace.
pub open spec fn trimmed(s: Seq<char>) -> Seq<char> {
    let a = skip_ws(s, 0);
    if a >= s.len() {
        Seq::empty()
    } else {
        s.subrange(a, trim_end(s, s.len() as int))
    }
}

pub open spec fn modal_page_of(input: Seq<char>, current: u64, last_page: u64) -> u64 {
    match u64_of(trimmed(input)) {
        Some(n) => clamp(n, last_page),
        None => clamp(current, last_page),
    }
}

/// The page that a "jump to page" submission selects: the number entered,
/// clamped to `last_page`; input that is no number keeps `current`, brought
/// back into range where the content shrank.
pub fn modal_page(input: &str, current: u64, last_page: u64) -> (r: u64)
    ensures
        r == modal_page_of(input@, current, last_page),
{
    let s = chars_of(input);
    let a = skip_whitespace(&s, 0);
    if a >= s.len() {
        proof {
            assert(u64_of(Seq::<char>::empty()) is None);
        }
        return clamp_page(current, last_page);
    }
    proof {
        lemma_trim_end_past(s@, s@.len() as int, a as int);
    }
    let z = find_trim_end(&s, s.len());
    match parse_u64(&s, a, z) {
        Some(n) => clamp_page(n, last_page),
        None => clamp_page(current, last_page),
    }
}

/// The last page of the pager demonstration.
pub const PAGETEST_LAST_PAGE: u64 = 4;

/// The last page of a feature's pager; the permissions pager is rendered
/// elsewhere and has none here.
pub open spec fn last_page_of(f: PagerFeature) -> Option<u64> {
    match f {
        PagerFeature::Help => Some(((registry().len() - 1) / (HELP_PAGE_SIZE as int)) as u64),
        PagerFeature::Pagetest => Some(PAGETEST_LAST_PAGE),
        PagerFeature::Permissions => None,
    }
}

/// The page that an interaction on `route` re-renders: a modal submission
/// reads `input` against the page its token carries, a button steps from
/// that page; `None` where the token carries no page or the feature has no
/// pager here.
pub open spec fn pager_page_of(route: InteractionRoute, token: Seq<char>, input: Seq<char>) -> Option<
    u64,
> {
    match last_page_of(feature_of(route)) {
        None => None,
        Some(last) => if is_modal_route(route) {
            match token_page_of(token) {
                None => None,
                Some(c) => Some(modal_page_of(input, c, last)),
            }
        } else {
            button_page_of(token, last)
        },
    }
}

/// Decides the page an interaction on a pager re-renders.
pub fn pager_page(route: InteractionRoute, token: &str, input: &str) -> (r: Option<u64>)
    ensures
        r == pager_page_of(route, token@, input@),
{
    let last = match route.feature() {
        PagerFeature::Help => help_last_page(),
        PagerFeature::Pagetest => PAGETEST_LAST_PAGE,
        PagerFeature::Permissions => {
            return None;
        },
    };
    if route.is_modal() {
        match token_page(token) {
            None => None,
            Some(c) => Some(modal_page(input, c, last)),
        }
    } else {
        button_page(token, last)
    }
}

/// Every page the pager moves to lies in `[0, last_page]`, whatever page the
/// token carried, so content that shrank between renders is reclamped; a
/// page already in range is kept by a submission that is no number.
pub proof fn lemma_pages_stay_in_range(current: u64, last_page: u64, entered: Option<u64>)
    ensures
        next_of(current, last_page) <= last_page,
        previous_of(current, last_page) <= last_page,
        clamp(current, last_page) <= last_page,
        current <= last_page ==> clamp(current, last_page) == current,
        current <= last_page ==> previous_of(current, last_page) == if current == 0 {
            0
        } else {
            (current - 1) as u64
        },
        previous_of(0, last_page) == 0,
        current > last_page ==> clamp(current, last_page) == last_page,
        match entered {
            Some(n) => clamp(n, last_page) <= last_page,
            None => true,
        },
{
}

/// The token of a pager control: namespace, feature with its payload, and the
/// page the control leads to.
pub open spec fn page_token_text(modal: bool, feature: Seq<char>, page: u64) -> Seq<char> {
    (if modal {
        "pgm:"@
    } else {
        "pg:"@
    }) + feature + ":"@ + decimal(page as nat)
}

/// Builds the token of a pager control.
pub fn page_token(modal: bool, feature: &str, page: u64) -> (r: String)
    ensures
        r@ == page_token_text(modal, feature@, page),
{
    let mut v: Vec<char> = Vec::new();
    if modal {
        push_str(&mut v, "pgm:");
    } else {
        push_str(&mut v, "pg:");
    }
    push_str(&mut v, feature);
    push_str(&mut v, ":");
    push_decimal(&mut v, page);
    string_of(&v)
}

/// The index just past the last `:` of `s`, or 0 where there is none.
pub open spec fn after_last_colon(s: Seq<char>) -> int
    decreases s.len(),
{
    if s.len() == 0 {
        0
    } else if s.last() == ':' {
        s.len() as int
    } else {
        after_last_colon(s.drop_last())
    }
}

/// The page that a token carries in its last `:`-separated segment.
pub open spec fn token_page_of(token: Seq<char>) -> Option<u64> {
    u64_of(token.subrange(after_last_colon(token), token.len() as int))
}

/// Reads the page that a pager control's token carries.
pub fn token_page(token: &str) -> (r: Option<u64>)
    ensures
        r == token_page_of(token@),
{
    let s = chars_of(token);
    let k = after_last_colon_index(&s);
    parse_u64(&s, k, s.len())
}

/// Whether a pager button's token steps back: the segment before its page
/// ends in `:prev`, as in `pg:help:prev:3`.
pub open spec fn steps_back(token: Seq<char>) -> bool {
    ":prev:"@.is_suffix_of(token.subrange(0, after_last_colon(token)))
}

pub open spec fn button_page_of(token: Seq<char>, last_page: u64) -> Option<u64> {
    match token_page_of(token) {
        None => None,
        Some(c) => Some(
            if steps_back(token) {
                previous_of(c, last_page)
            } else {
                next_of(c, last_page)
            },
        ),
    }
}

/// The page a pager button leads to: one step back or forward from the page
/// its token carries, kept inside `[0, last_page]`; a token without a page
/// gives none.
pub fn button_page(token: &str, last_page: u64) -> (r: Option<u64>)
    ensures
        r == button_page_of(token@, last_page),
{
    let current = match token_page(token) {
        Some(c) => c,
        None => {
            return None;
        },
    };
    let s = chars_of(token);
    let k = after_last_colon_index(&s);
    if ends_with_at(&s, k, ":prev:") {
        Some(previous_page(current, last_page))
    } else {
        Some(next_page(current, last_page))
    }
}

fn after_last_colon_index(s: &Vec<char>) -> (r: usize)
    ensures
        r as int == after_last_colon(s@),
        r <= s@.len(),
{
    let mut k: usize = s.len();
    assert(s@.subrange(0, k as int) =~= s@);
    while k > 0 && s[k - 1] != ':'
        invariant
            k <= s@.len(),
            after_last_colon(s@) == after_last_colon(s@.subrange(0, k as int)),
        decreases k,
    {
        assert(s@.subrange(0, k as int).drop_last() =~= s@.subrange(0, k - 1));
        k = k - 1;
    }
    proof {
        if k > 0 {
            assert(s@.subrange(0, k as int).last() == ':');
        }
    }
    k
}

/// Whether `p` ends the first `end` characters of `s`.
fn ends_with_at(s: &Vec<char>, end: usize, p: &str) -> (r: bool)
    requires
        end <= s@.len(),
    ensures
        r == p@.is_suffix_of(s@.subrange(0, end as int)),
{
    let n = p.unicode_len();
    if n > end {
        return false;
    }
    let base = end - n;
    let mut i: usize = 0;
    while i < n
        invariant
            n == p@.len(),
            base + n == end <= s@.len(),
            i <= n,
            forall|k: int| 0 <= k < i ==> p@[k] == s@[base + k],
        decreases n - i,
    {
        if p.get_char(i) != s[base + i] {
            assert(s@.subrange(0, end as int).subrange(base as int, end as int)[i as int] == s@[
                base + i]);
            return false;
        }
        i = i + 1;
    }
    assert(p@ =~= s@.subrange(0, end as int).subrange(base as int, end as int));
    true
}

proof fn lemma_decimal_digits(n: nat)
    ensures
        decimal(n).len() > 0,
        all_digits(decimal(n)),
        digits_value(decimal(n)) == n,
    decreases n,
{
    assert(digit_value(digit_char(n % 10)) == n % 10);
    if n < 10 {
        assert(decimal(n).drop_last() =~= Seq::<char>::empty());
        assert(decimal(n).last() == digit_char(n));
        assert(n % 10 == n);
        assert(digits_value(Seq::<char>::empty()) == 0);
        assert(digits_value(decimal(n)) == digits_value(decimal(n).drop_last()) * 10
            + digit_value(decimal(n).last()));
    } else {
        lemma_decimal_digits(n / 10);
        let d = decimal(n);
        assert(d.drop_last() =~= decimal(n / 10));
        assert(d.last() == digit_char(n % 10));
        assert(digits_value(d) == digits_value(d.drop_last()) * 10 + digit_value(d.last()));
        assert(n == (n / 10) * 10 + n % 10);
        assert(digits_value(d) == n);
        assert forall|i: int| 0 <= i < d.len() implies is_digit(#[trigger] d[i]) by {
            if i < d.len() - 1 {
                assert(d[i] == decimal(n / 10)[i]);
            }
        }
    }
}

proof fn lemma_colon_free_suffix(s: Seq<char>, d: Seq<char>)
    requires
        forall|i: int| 0 <= i < d.len() ==> #[trigger] d[i] != ':',
    ensures
        after_last_colon(s + d) == after_last_colon(s),
    decreases d.len(),
{
    if d.len() > 0 {
        assert((s + d).drop_last() =~= s + d.drop_last());
        lemma_colon_free_suffix(s, d.drop_last());
    } else {
        assert(s + d =~= s);
    }
}

/// The page written into a pager control's token is the page read back from
/// it, whatever the feature and its payload hold.
pub proof fn lemma_page_token_round_trip(modal: bool, feature: Seq<char>, page: u64)
    ensures
        token_page_of(page_token_text(modal, feature, page)) == Some(page),
{
    let head = (if modal {
        "pgm:"@
    } else {
        "pg:"@
    }) + feature + ":"@;
    let d = decimal(page as nat);
    lemma_decimal_digits(page as nat);
    assert forall|i: int| 0 <= i < d.len() implies #[trigger] d[i] != ':' by {
        assert(is_digit(d[i]));
    }
    reveal_strlit(":");
    assert(head.last() == ':');
    assert(head.drop_last() + seq![':'] =~= head);
    lemma_colon_free_suffix(head, d);
    assert(page_token_text(modal, feature, page) == head + d);
    assert((head + d).subrange(head.len() as int, (head + d).len() as int) =~= d);
    assert(d[0] != '+') by {
        assert(is_digit(d[0]));
    }
}

} // verus!
