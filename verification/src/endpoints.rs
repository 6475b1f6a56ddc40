//! The addresses of the API's inbox endpoints, and the value of the
//! `Authorization` header.

use vstd::prelude::*;
use crate::text::{chars_of, push_char, push_str, string_from_chars};

verus! {

/// `s` without the occurrences of `c` that it ends with.
pub open spec fn trim_trailing(s: Seq<char>, c: char) -> Seq<char>
    decreases s.len(),
{
    if s.len() > 0 && s.last() == c {
        trim_trailing(s.drop_last(), c)
    } else {
        s
    }
}

/// The API root never ends with a slash, and trimming it again changes
/// nothing.
pub proof fn law_root_has_no_trailing_slash(s: Seq<char>)
    ensures
        trim_trailing(s, '/').len() > 0 ==> trim_trailing(s, '/').last() != '/',
        trim_trailing(trim_trailing(s, '/'), '/') == trim_trailing(s, '/'),
        trim_trailing(s, '/').is_prefix_of(s),
        forall|j: int| trim_trailing(s, '/').len() <= j < s.len() ==> s[j] == '/',
    decreases s.len(),
{
    if s.len() > 0 && s.last() == '/' {
        law_root_has_no_trailing_slash(s.drop_last());
        assert(s.drop_last().is_prefix_of(s));
        assert forall|j: int| trim_trailing(s, '/').len() <= j < s.len() implies s[j] == '/' by {
            if j < s.len() - 1 {
                assert(s[j] == s.drop_last()[j]);
            }
        }
    } else {
        assert(s.is_prefix_of(s));
    }
}

/// The `Authorization` value is `Bearer `, then the token as it stands.
pub proof fn law_authorization_carries_the_token(token: Seq<char>)
    ensures
        spec_authorization(token).len() == token.len() + 7,
        spec_authorization(token).skip(7) == token,
        spec_authorization(token).take(7) == seq!['B', 'e', 'a', 'r', 'e', 'r', ' '],
{
    reveal_strlit("Bearer ");
    assert(spec_authorization(token).skip(7) =~= token);
    assert(spec_authorization(token).take(7) =~= seq!['B', 'e', 'a', 'r', 'e', 'r', ' ']);
}

/// The decimal digit for `d` (0 to 9).
pub open spec fn digit_char(d: nat) -> char {
    if d == 0 {
        '0'
    } else if d == 1 {
        '1'
    } else if d == 2 {
        '2'
    } else if d == 3 {
        '3'
    } else if d == 4 {
        '4'
    } else if d == 5 {
        '5'
    } else if d == 6 {
        '6'
    } else if d == 7 {
        '7'
    } else if d == 8 {
        '8'
    } else {
        '9'
    }
}

/// `n` written in decimal, without leading zeros.
pub open spec fn decimal(n: nat) -> Seq<char>
    decreases n,
{
    if n < 10 {
        seq![digit_char(n)]
    } else {
        decimal(n / 10).push(digit_char(n % 10))
    }
}

/// The number that a string of decimal digits stands for.
pub open spec fn digits_value(s: Seq<char>) -> int
    decreases s.len(),
{
    if s.len() == 0 {
        0
    } else {
        digits_value(s.drop_last()) * 10 + (s.last() as int - '0' as int)
    }
}

proof fn lemma_digit_char(d: nat)
    requires
        d < 10,
    ensures
        digit_char(d) as int - '0' as int == d,
        '0' <= digit_char(d) <= '9',
        d != 0 ==> digit_char(d) != '0',
{
}

/// Writing a number in decimal loses nothing: the digits read back as the
/// number, every character is a digit, and there is no leading zero.
pub proof fn law_decimal_reads_back(n: nat)
    ensures
        digits_value(decimal(n)) == n,
        decimal(n).len() > 0,
        decimal(n).len() == 1 <==> n < 10,
        forall|i: int| 0 <= i < decimal(n).len() ==> '0' <= #[trigger] decimal(n)[i] <= '9',
        decimal(n).len() > 1 ==> decimal(n)[0] != '0',
    decreases n,
{
    if n < 10 {
        lemma_digit_char(n);
        assert(decimal(n).drop_last() =~= Seq::<char>::empty());
        assert(digits_value(decimal(n)) == digits_value(decimal(n).drop_last()) * 10 + (decimal(n).last() as int
            - '0' as int));
    } else {
        law_decimal_reads_back(n / 10);
        lemma_digit_char((n % 10) as nat);
        let d = decimal(n / 10);
        assert(decimal(n).drop_last() =~= d);
        assert(decimal(n).last() == digit_char((n % 10) as nat));
        assert(n == (n / 10) * 10 + n % 10);
        assert(digits_value(decimal(n)) == digits_value(decimal(n).drop_last()) * 10 + (decimal(n).last() as int
            - '0' as int));
        assert(digits_value(decimal(n)) == (n / 10) * 10 + (n % 10));
        assert(decimal(n)[0] == d[0]);
        assert forall|i: int| 0 <= i < decimal(n).len() implies '0' <= #[trigger] decimal(n)[i] <= '9' by {
            if i < d.len() {
                assert(decimal(n)[i] == d[i]);
            }
        }
        if d.len() == 1 {
            lemma_digit_char(n / 10);
            assert(d[0] == digit_char(n / 10));
        }
    }
}

/// The address of one inbox is the address of the list, a slash, and the
/// inbox's id in decimal.
pub proof fn law_inbox_url_extends_list_url(base: Seq<char>, id: u64)
    ensures
        spec_inbox_url(base, id) == spec_inboxes_url(base) + seq!['/'] + decimal(id as nat),
        spec_inboxes_url(base).is_prefix_of(spec_inbox_url(base, id)),
{
    reveal_strlit("/api/v1/inboxes/");
    reveal_strlit("/api/v1/inboxes");
    assert(spec_inbox_url(base, id) =~= spec_inboxes_url(base) + seq!['/'] + decimal(id as nat));
}

/// The address of the inbox list under the API root `base`.
pub open spec fn spec_inboxes_url(base: Seq<char>) -> Seq<char> {
    base + "/api/v1/inboxes"@
}

/// The address of the inbox `id` under the API root `base`.
pub open spec fn spec_inbox_url(base: Seq<char>, id: u64) -> Seq<char> {
    base + "/api/v1/inboxes/"@ + decimal(id as nat)
}

/// The value of the `Authorization` header for `token`.
pub open spec fn spec_authorization(token: Seq<char>) -> Seq<char> {
    "Bearer "@ + token
}

fn digit(d: u64) -> (c: char)
    requires
        d < 10,
    ensures
        c == digit_char(d as nat),
{
    match d {
        0 => '0',
        1 => '1',
        2 => '2',
        3 => '3',
        4 => '4',
        5 => '5',
        6 => '6',
        7 => '7',
        8 => '8',
        _ => '9',
    }
}

/// Appends `n` in decimal.
pub fn push_decimal(out: &mut String, n: u64)
    ensures
        final(out)@ == old(out)@ + decimal(n as nat),
    decreases n,
{
    if n >= 10 {
        push_decimal(out, n / 10);
    }
    push_char(out, digit(n % 10));
}

/// The API root, a base URL without the slashes that it ends with.
pub struct Endpoints {
    pub base_url: String,
}

impl Endpoints {
    /// The endpoints under `base_url`, its trailing slashes removed.
    pub fn new(base_url: &str) -> (r: Endpoints)
        ensures
            r.base_url@ == trim_trailing(base_url@, '/'),
    {
        let mut v = chars_of(base_url);
        let ghost whole = v@;
        while v.len() > 0 && v[v.len() - 1] == '/'
            invariant
                trim_trailing(whole, '/') == trim_trailing(v@, '/'),
            decreases v.len(),
        {
            let ghost before = v@;
            v.pop();
            assert(before.drop_last() =~= v@);
        }
        Endpoints { base_url: string_from_chars(&v) }
    }

    /// The address of the inbox list.
    pub fn inboxes(&self) -> (r: String)
        ensures
            r@ == spec_inboxes_url(self.base_url@),
    {
        let mut r = self.base_url.clone();
        push_str(&mut r, "/api/v1/inboxes");
        r
    }

    /// The address of the inbox `id`.
    pub fn inbox(&self, id: u64) -> (r: String)
        ensures
            r@ == spec_inbox_url(self.base_url@, id),
    {
        let mut r = self.base_url.clone();
        push_str(&mut r, "/api/v1/inboxes/");
        push_decimal(&mut r, id);
        r
    }
}

/// Whether an HTTP status code reports success: the 2xx codes.
pub open spec fn is_success_code(code: u16) -> bool {
    200 <= code && code < 300
}

/// The error that a reply with a failure status reports: the status, then the
/// reply's body when it is read.
pub open spec fn spec_failure_message(status: Seq<char>, body: Option<Seq<char>>) -> Seq<char> {
    match body {
        Some(b) => "API returned "@ + status + ": "@ + b,
        None => "API returned "@ + status,
    }
}

/// Whether a reply with status `code` succeeded.
pub fn reply_succeeded(code: u16) -> (r: bool)
    ensures
        r == is_success_code(code),
{
    200 <= code && code < 300
}

/// The error that a reply with a failure status (shown as `status`, such as
/// `404 Not Found`) reports, with `body` appended when given.
pub fn failure_message(status: &str, body: Option<&str>) -> (r: String)
    ensures
        r@ == spec_failure_message(status@, match body {
            Some(b) => Some(b@),
            None => None,
        }),
{
    let mut m = String::new();
    push_str(&mut m, "API returned ");
    push_str(&mut m, status);
    match body {
        Some(b) => {
            push_str(&mut m, ": ");
            push_str(&mut m, b);
        },
        None => {},
    }
    m
}

/// The value of the `Authorization` header that carries `token`.
pub fn authorization(token: &str) -> (r: String)
    ensures
        r@ == spec_authorization(token@),
{
    let mut r = String::new();
    push_str(&mut r, "Bearer ");
    push_str(&mut r, token);
    r
}

} // verus!
