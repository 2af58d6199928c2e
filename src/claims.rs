use vstd::prelude::*;
use crate::role::{Role, role_name, lemma_role_names};
use crate::text::{
    chars_of, decimal, digits_value, is_digit, lemma_decimal, push_decimal, starts_at, find_char,
    digit_run_end, read_digits, same_chars,
};

verus! {

/// The three disjoint kinds of signed token.
#[derive(Debug, Clone, Copy, PartialEq, Eq, Structural)]
pub enum TokenKind {
    Access,
    Refresh,
    Reset,
}

/// What a token asserts: its kind, the subject's stable identifier, the
/// subject's role (absent exactly for reset tokens) and the expiry instant in
/// seconds since the Unix epoch.
#[derive(Debug, Clone, Copy, PartialEq, Eq, Structural)]
pub struct TokenClaims {
    pub kind: TokenKind,
    pub subject: u128,
    pub role: Option<Role>,
    pub exp: u64,
}

/// The type tag of each kind, as carried in the token.
pub open spec fn kind_name(k: TokenKind) -> Seq<char> {
    match k {
        TokenKind::Access => "access"@,
        TokenKind::Refresh => "refresh"@,
        TokenKind::Reset => "reset"@,
    }
}

/// Reset tokens carry no role; the two other kinds always carry one.
pub open spec fn claims_wf(c: TokenClaims) -> bool {
    (c.kind == TokenKind::Reset) == (c.role is None)
}

/// The role field of the payload text, when there is one.
pub open spec fn role_field(r: Option<Role>) -> Seq<char> {
    match r {
        Some(x) => "\",\"role\":\""@ + role_name(x),
        None => Seq::empty(),
    }
}

/// The payload text of a token: a JSON object with the fields in a fixed
/// order, the subject written as a decimal string and the expiry as a number.
pub open spec fn claims_text(c: TokenClaims) -> Seq<char> {
    "{\"kind\":\""@ + (kind_name(c.kind) + (role_field(c.role) + ("\",\"sub\":\""@ + (decimal(
        c.subject as nat,
    ) + ("\",\"exp\":"@ + (decimal(c.exp as nat) + "}"@))))))
}

proof fn lemma_literals()
    ensures
        "{\"kind\":\""@.len() == 9,
        "\",\"role\":\""@.len() == 10,
        "\",\"sub\":\""@.len() == 9,
        "\",\"exp\":"@.len() == 8,
        "}"@.len() == 1,
        "\",\"role\":\""@[0] == '"',
        "\",\"role\":\""@[3] == 'r',
        "\",\"sub\":\""@[0] == '"',
        "\",\"sub\":\""@[3] == 's',
        "\",\"exp\":"@[0] == '"',
        "}"@[0] == '}',
        "access"@.len() == 6,
        "refresh"@.len() == 7,
        "reset"@.len() == 5,
        forall|i: int| 0 <= i < 6 ==> "access"@[i] != '"',
        forall|i: int| 0 <= i < 7 ==> "refresh"@[i] != '"',
        forall|i: int| 0 <= i < 5 ==> "reset"@[i] != '"',
        forall|i: int| 0 <= i < 5 ==> "admin"@[i] != '"',
        forall|i: int| 0 <= i < 4 ==> "user"@[i] != '"',
        forall|i: int| 0 <= i < 9 ==> "superuser"@[i] != '"',
{
    reveal_strlit("{\"kind\":\"");
    reveal_strlit("\",\"role\":\"");
    reveal_strlit("\",\"sub\":\"");
    reveal_strlit("\",\"exp\":");
    reveal_strlit("}");
    reveal_strlit("access");
    reveal_strlit("refresh");
    reveal_strlit("reset");
    reveal_strlit("admin");
    reveal_strlit("user");
    reveal_strlit("superuser");
}

/// Splitting a suffix that is a concatenation.
proof fn lemma_split(t: Seq<char>, pos: int, a: Seq<char>, b: Seq<char>)
    requires
        0 <= pos <= t.len(),
        t.subrange(pos, t.len() as int) == a + b,
    ensures
        pos + a.len() + b.len() == t.len(),
        t.subrange(pos, pos + a.len()) == a,
        t.subrange(pos + a.len(), t.len() as int) == b,
        forall|i: int| 0 <= i < a.len() ==> t[pos + i] == a[i],
        b.len() > 0 ==> t[pos + a.len()] == b[0],
{
    assert(t.subrange(pos, pos + a.len()) =~= (a + b).subrange(0, a.len() as int));
    assert((a + b).subrange(0, a.len() as int) =~= a);
    assert(t.subrange(pos + a.len(), t.len() as int) =~= (a + b).subrange(
        a.len() as int,
        (a + b).len() as int,
    ));
    assert((a + b).subrange(a.len() as int, (a + b).len() as int) =~= b);
    assert forall|i: int| 0 <= i < a.len() implies t[pos + i] == a[i] by {
        assert(t.subrange(pos, t.len() as int)[i] == t[pos + i]);
    }
    if b.len() > 0 {
        assert(t.subrange(pos, t.len() as int)[a.len() as int] == t[pos + a.len()]);
    }
}

impl TokenKind {
    /// The type tag of this kind.
    pub fn as_str(&self) -> (r: &'static str)
        ensures
            r@ == kind_name(*self),
    {
        match self {
            TokenKind::Access => "access",
            TokenKind::Refresh => "refresh",
            TokenKind::Reset => "reset",
        }
    }
}

/// Writes the payload text of `c`.
pub fn encode_claims(c: &TokenClaims) -> (r: String)
    ensures
        r@ == claims_text(*c),
{
    let mut out = String::from_str("{\"kind\":\"");
    out.append(c.kind.as_str());
    match c.role {
        Some(role) => {
            out.append("\",\"role\":\"");
            out.append(role.as_str());
        },
        None => {},
    }
    out.append("\",\"sub\":\"");
    push_decimal(&mut out, c.subject);
    out.append("\",\"exp\":");
    push_decimal(&mut out, c.exp as u128);
    out.append("}");
    assert(out@ =~= claims_text(*c));
    out
}

/// The kind whose tag is `t[p..e]`.
fn kind_at(t: &Vec<char>, p: usize, e: usize) -> (r: Option<TokenKind>)
    requires
        p <= e <= t@.len(),
    ensures
        forall|k: TokenKind| t@.subrange(p as int, e as int) == kind_name(k) ==> r == Some(k),
{
    proof {
        lemma_literals();
    }
    if starts_at(t, p, "access") && e - p == 6 {
        Some(TokenKind::Access)
    } else if starts_at(t, p, "refresh") && e - p == 7 {
        Some(TokenKind::Refresh)
    } else if starts_at(t, p, "reset") && e - p == 5 {
        Some(TokenKind::Reset)
    } else {
        None
    }
}

/// The role whose name is `t[p..e]`.
fn role_at(t: &Vec<char>, p: usize, e: usize) -> (r: Option<Role>)
    requires
        p <= e <= t@.len(),
    ensures
        forall|x: Role| t@.subrange(p as int, e as int) == role_name(x) ==> r == Some(x),
{
    proof {
        lemma_role_names();
    }
    if starts_at(t, p, "admin") && e - p == 5 {
        Some(Role::Admin)
    } else if starts_at(t, p, "user") && e - p == 4 {
        Some(Role::User)
    } else if starts_at(t, p, "superuser") && e - p == 9 {
        Some(Role::SuperUser)
    } else {
        None
    }
}

/// Where each field of a payload text lies, for a well-formed claim.
#[verifier::rlimit(100)]
proof fn lemma_layout(c: TokenClaims, t: Seq<char>)
    requires
        claims_wf(c),
        claims_text(c) == t,
    ensures
        ({
            let k = kind_name(c.kind).len() as int;
            let at_sub = 9 + k + role_field(c.role).len();
            let sub_start = at_sub + 9;
            let sub_end = sub_start + decimal(c.subject as nat).len();
            let exp_start = sub_end + 8;
            let exp_end = exp_start + decimal(c.exp as nat).len();
            &&& t.len() >= 9 && t.subrange(0, 9) == "{\"kind\":\""@
            &&& forall|i: int| 9 <= i < 9 + k ==> t[i] != '"'
            &&& t[9 + k] == '"'
            &&& t.subrange(9, 9 + k) == kind_name(c.kind)
            &&& (c.role matches Some(x) ==> {
                &&& 9 + k + 10 <= t.len()
                &&& t.subrange(9 + k, 9 + k + 10) == "\",\"role\":\""@
                &&& forall|i: int| 19 + k <= i < at_sub ==> t[i] != '"'
                &&& t[at_sub] == '"'
                &&& t.subrange(19 + k, at_sub) == role_name(x)
            })
            &&& (c.role is None ==> at_sub == 9 + k && t[9 + k + 3] == 's')
            &&& sub_start <= t.len() && t.subrange(at_sub, sub_start) == "\",\"sub\":\""@
            &&& forall|i: int| sub_start <= i < sub_end ==> is_digit(#[trigger] t[i])
            &&& sub_end < t.len() && !is_digit(t[sub_end])
            &&& t.subrange(sub_start, sub_end) == decimal(c.subject as nat)
            &&& exp_start <= t.len() && t.subrange(sub_end, exp_start) == "\",\"exp\":"@
            &&& forall|i: int| exp_start <= i < exp_end ==> is_digit(#[trigger] t[i])
            &&& exp_end < t.len() && !is_digit(t[exp_end])
            &&& t.subrange(exp_start, exp_end) == decimal(c.exp as nat)
            &&& t[exp_end] == '}' && exp_end + 1 == t.len()
        }),
{
    lemma_literals();
    lemma_role_names();
    lemma_decimal(c.subject as nat);
    lemma_decimal(c.exp as nat);
    let lk = "{\"kind\":\""@;
    let kn = kind_name(c.kind);
    let rf = role_field(c.role);
    let ls = "\",\"sub\":\""@;
    let ds = decimal(c.subject as nat);
    let le = "\",\"exp\":"@;
    let de = decimal(c.exp as nat);
    let cl = "}"@;
    let r6 = de + cl;
    let r5 = le + r6;
    let r4 = ds + r5;
    let r3 = ls + r4;
    let r2 = rf + r3;
    let r1 = kn + r2;
    assert(t.subrange(0, t.len() as int) =~= t);
    lemma_split(t, 0, lk, r1);
    let k = kn.len() as int;
    lemma_split(t, 9, kn, r2);
    assert forall|i: int| 9 <= i < 9 + k implies t[i] != '"' by {
        assert(t[9 + (i - 9)] == kn[i - 9]);
    }
    lemma_split(t, 9 + k, rf, r3);
    let at_sub = 9 + k + rf.len();
    if let Some(x) = c.role {
        let lr = "\",\"role\":\""@;
        let rn = role_name(x);
        assert(rf == lr + rn);
        assert(t.subrange(9 + k, t.len() as int) =~= lr + (rn + r3));
        lemma_split(t, 9 + k, lr, rn + r3);
        lemma_split(t, 19 + k, rn, r3);
        assert forall|i: int| 19 + k <= i < at_sub implies t[i] != '"' by {
            assert(t[19 + k + (i - 19 - k)] == rn[i - 19 - k]);
        }
    } else {
        assert(t[9 + k + 3] == r3[3]);
    }
    lemma_split(t, at_sub, ls, r4);
    let sub_start = at_sub + 9;
    lemma_split(t, sub_start, ds, r5);
    let sub_end = sub_start + ds.len();
    assert forall|i: int| sub_start <= i < sub_end implies is_digit(#[trigger] t[i]) by {
        assert(t[sub_start + (i - sub_start)] == ds[i - sub_start]);
    }
    lemma_split(t, sub_end, le, r6);
    let exp_start = sub_end + 8;
    lemma_split(t, exp_start, de, cl);
    let exp_end = exp_start + de.len();
    assert forall|i: int| exp_start <= i < exp_end implies is_digit(#[trigger] t[i]) by {
        assert(t[exp_start + (i - exp_start)] == de[i - exp_start]);
    }
}

/// Two well-formed claims with the same payload text are the same claims.
pub proof fn lemma_claims_text_injective(c1: TokenClaims, c2: TokenClaims)
    requires
        claims_wf(c1),
        claims_wf(c2),
        claims_text(c1) == claims_text(c2),
    ensures
        c1 == c2,
{
    let t = claims_text(c1);
    lemma_layout(c1, t);
    lemma_layout(c2, t);
    lemma_literals();
    lemma_role_names();
    let k1 = kind_name(c1.kind).len() as int;
    let k2 = kind_name(c2.kind).len() as int;
    if k1 < k2 {
        assert(t[9 + k1] != '"');
    } else if k2 < k1 {
        assert(t[9 + k2] != '"');
    }
    assert(c1.kind == c2.kind);
    let k = k1;
    match (c1.role, c2.role) {
        (Some(x1), Some(x2)) => {
            let q1 = 19 + k + role_name(x1).len();
            let q2 = 19 + k + role_name(x2).len();
            if q1 < q2 {
                assert(t[q1] != '"');
            } else if q2 < q1 {
                assert(t[q2] != '"');
            }
            assert(x1 == x2);
        },
        (Some(x1), None) => {
            assert(t.subrange(9 + k, 9 + k + 10)[3] == t[9 + k + 3]);
        },
        (None, Some(x2)) => {
            assert(t.subrange(9 + k, 9 + k + 10)[3] == t[9 + k + 3]);
        },
        (None, None) => {},
    }
    let sub_start = 9 + k + role_field(c1.role).len() + 9;
    let d1 = decimal(c1.subject as nat);
    let d2 = decimal(c2.subject as nat);
    if d1.len() < d2.len() {
        assert(is_digit(t[sub_start + d1.len()]));
    } else if d2.len() < d1.len() {
        assert(is_digit(t[sub_start + d2.len()]));
    }
    lemma_decimal(c1.subject as nat);
    lemma_decimal(c2.subject as nat);
    assert(d1 == d2);
    assert(c1.subject == c2.subject);
    let exp_start = sub_start + d1.len() + 8;
    let f1 = decimal(c1.exp as nat);
    let f2 = decimal(c2.exp as nat);
    if f1.len() < f2.len() {
        assert(is_digit(t[exp_start + f1.len()]));
    } else if f2.len() < f1.len() {
        assert(is_digit(t[exp_start + f2.len()]));
    }
    lemma_decimal(c1.exp as nat);
    lemma_decimal(c2.exp as nat);
    assert(f1 == f2);
}

/// The well-formed claims whose payload text is `p`, if there are any (there
/// is at most one).
pub open spec fn payload_claims(p: Seq<char>) -> Option<TokenClaims> {
    if exists|c: TokenClaims| claims_text(c) == p && claims_wf(c) {
        Some(choose|c: TokenClaims| claims_text(c) == p && claims_wf(c))
    } else {
        None
    }
}

/// Reads a payload text back into its claims. Exactly the texts written by
/// `encode_claims` for a well-formed claim are accepted.
pub fn decode_claims(s: &str) -> (r: Option<TokenClaims>)
    ensures
        r == payload_claims(s@),
        r matches Some(c) ==> claims_wf(c) && claims_text(c) == s@,
        forall|c: TokenClaims| #[trigger] claims_text(c) == s@ && claims_wf(c) ==> r == Some(c),
{
    proof {
        lemma_literals();
    }
    let ghost has = exists|c: TokenClaims| claims_text(c) == s@ && claims_wf(c);
    let ghost c0 = choose|c: TokenClaims| claims_text(c) == s@ && claims_wf(c);
    let t = chars_of(s);
    proof {
        if has {
            lemma_layout(c0, t@);
            lemma_decimal(c0.subject as nat);
            lemma_decimal(c0.exp as nat);
        }
    }
    let r = decode_chars(&t, Ghost(has), Ghost(c0));
    proof {
        if let Some(c) = r {
            assert forall|c1: TokenClaims| claims_text(c1) == s@ && claims_wf(c1) implies c1 == c by {
                lemma_claims_text_injective(c1, c);
            }
            let w = choose|c1: TokenClaims| claims_text(c1) == s@ && claims_wf(c1);
            assert(claims_text(w) == s@ && claims_wf(w));
        }
    }
    r
}

#[verifier::rlimit(100)]
fn decode_chars(t: &Vec<char>, Ghost(has): Ghost<bool>, Ghost(c0): Ghost<TokenClaims>) -> (r: Option<
    TokenClaims,
>)
    requires
        has ==> {
            let c = c0;
            let k = kind_name(c.kind).len() as int;
            let at_sub = 9 + k + role_field(c.role).len();
            let sub_start = at_sub + 9;
            let sub_end = sub_start + decimal(c.subject as nat).len();
            let exp_start = sub_end + 8;
            let exp_end = exp_start + decimal(c.exp as nat).len();
            &&& claims_wf(c) && claims_text(c) == t@
            &&& t@.len() >= 9 && t@.subrange(0, 9) == "{\"kind\":\""@
            &&& forall|i: int| 9 <= i < 9 + k ==> t@[i] != '"'
            &&& t@[9 + k] == '"'
            &&& t@.subrange(9, 9 + k) == kind_name(c.kind)
            &&& (c.role matches Some(x) ==> {
                &&& 9 + k + 10 <= t@.len()
                &&& t@.subrange(9 + k, 9 + k + 10) == "\",\"role\":\""@
                &&& forall|i: int| 19 + k <= i < at_sub ==> t@[i] != '"'
                &&& t@[at_sub] == '"'
                &&& t@.subrange(19 + k, at_sub) == role_name(x)
            })
            &&& (c.role is None ==> at_sub == 9 + k && t@[9 + k + 3] == 's')
            &&& sub_start <= t@.len() && t@.subrange(at_sub, sub_start) == "\",\"sub\":\""@
            &&& forall|i: int| sub_start <= i < sub_end ==> is_digit(#[trigger] t@[i])
            &&& sub_end < t@.len() && !is_digit(t@[sub_end])
            &&& t@.subrange(sub_start, sub_end) == decimal(c.subject as nat)
            &&& digits_value(decimal(c.subject as nat)) == c.subject
            &&& exp_start <= t@.len() && t@.subrange(sub_end, exp_start) == "\",\"exp\":"@
            &&& forall|i: int| exp_start <= i < exp_end ==> is_digit(#[trigger] t@[i])
            &&& exp_end < t@.len() && !is_digit(t@[exp_end])
            &&& t@.subrange(exp_start, exp_end) == decimal(c.exp as nat)
            &&& digits_value(decimal(c.exp as nat)) == c.exp
            &&& t@[exp_end] == '}' && exp_end + 1 == t@.len()
        },
    ensures
        r matches Some(c) ==> claims_wf(c) && claims_text(c) == t@,
        has ==> r == Some(c0),
{
    proof {
        lemma_literals();
    }
    let n = t.len();
    if !starts_at(t, 0, "{\"kind\":\"") {
        return None;
    }
    let kind_end = find_char(t, 9, '"');
    let kind = match kind_at(t, 9, kind_end) {
        Some(k) => k,
        None => {
            return None;
        },
    };
    let mut role: Option<Role> = None;
    let mut at_sub = kind_end;
    if starts_at(t, kind_end, "\",\"role\":\"") {
        proof {
            if has && c0.role is None {
                assert(t@.subrange(kind_end as int, kind_end + 10)[3] == t@[kind_end + 3]);
            }
        }
        let p = kind_end + 10;
        let e = find_char(t, p, '"');
        match role_at(t, p, e) {
            Some(x) => {
                role = Some(x);
                at_sub = e;
            },
            None => {
                return None;
            },
        }
    }
    assert(has ==> role == c0.role && kind == c0.kind);
    if !starts_at(t, at_sub, "\",\"sub\":\"") {
        return None;
    }
    let sub_start = at_sub + 9;
    let sub_end = digit_run_end(t, sub_start);
    let subject = match read_digits(t, sub_start, sub_end) {
        Some(v) => v,
        None => {
            return None;
        },
    };
    if !starts_at(t, sub_end, "\",\"exp\":") {
        return None;
    }
    let exp_start = sub_end + 8;
    let exp_end = digit_run_end(t, exp_start);
    let exp = match read_digits(t, exp_start, exp_end) {
        Some(v) => v,
        None => {
            return None;
        },
    };
    if exp > u64::MAX as u128 {
        return None;
    }
    let c = TokenClaims { kind, subject, role, exp: exp as u64 };
    let wf = match (kind, role) {
        (TokenKind::Reset, None) => true,
        (TokenKind::Access, Some(_)) => true,
        (TokenKind::Refresh, Some(_)) => true,
        _ => false,
    };
    if !wf {
        return None;
    }
    let back = chars_of(encode_claims(&c).as_str());
    if !same_chars(&back, t) {
        return None;
    }
    Some(c)
}

} // verus!
