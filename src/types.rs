//! Fixed-width ASCII fields of the wire format.
use vstd::prelude::*;

verus! {

pub const SPACE: u8 = 32;

/// `n` spaces.
pub open spec fn spaces(n: nat) -> Seq<u8> {
    Seq::new(n, |_i: int| SPACE)
}

/// A text field: the text left-aligned, cut to `w` bytes or padded on the right with spaces.
pub open spec fn text_field(s: Seq<u8>, w: nat) -> Seq<u8> {
    if s.len() >= w {
        s.subrange(0, w as int)
    } else {
        s + spaces((w - s.len()) as nat)
    }
}

pub open spec fn digit_char(d: nat) -> u8 {
    (48 + d % 10) as u8
}

/// The last `w` places of `v` in decimal, with spaces in place of leading zeros.
pub open spec fn rjust(v: nat, w: nat) -> Seq<u8>
    decreases w,
{
    if w == 0 {
        Seq::empty()
    } else {
        rjust(v / 10, (w - 1) as nat).push(if v == 0 { SPACE } else { digit_char(v) })
    }
}

/// A numeric field: `v` in decimal, right-aligned in `w` bytes and padded on the left with spaces.
pub open spec fn num_field(v: nat, w: nat) -> Seq<u8> {
    if v == 0 && w > 0 {
        spaces((w - 1) as nat).push(48u8)
    } else {
        rjust(v, w)
    }
}

pub open spec fn pow10(n: nat) -> nat
    decreases n,
{
    if n == 0 {
        1
    } else {
        10 * pow10((n - 1) as nat)
    }
}

pub open spec fn is_digit(b: u8) -> bool {
    48 <= b <= 57
}

pub open spec fn all_digits(s: Seq<u8>) -> bool {
    forall|i: int| 0 <= i < s.len() ==> is_digit(#[trigger] s[i])
}

/// The number that a string of decimal digits spells.
pub open spec fn digits_value(s: Seq<u8>) -> nat
    decreases s.len(),
{
    if s.len() == 0 {
        0
    } else {
        digits_value(s.drop_last()) * 10 + (s.last() - 48) as nat
    }
}

pub open spec fn trim_start(s: Seq<u8>) -> Seq<u8>
    decreases s.len(),
{
    if s.len() > 0 && s[0] == SPACE {
        trim_start(s.drop_first())
    } else {
        s
    }
}

pub open spec fn trim_end(s: Seq<u8>) -> Seq<u8>
    decreases s.len(),
{
    if s.len() > 0 && s.last() == SPACE {
        trim_end(s.drop_last())
    } else {
        s
    }
}

/// What a numeric field reads as: its digits once the spaces around them are gone.
pub open spec fn ascii_decimal(s: Seq<u8>) -> Option<nat> {
    let t = trim_end(trim_start(s));
    if t.len() > 0 && all_digits(t) {
        Some(digits_value(t))
    } else {
        None
    }
}

/// What a numeric field reads as, where that fits in a `u64`.
pub open spec fn ascii_u64(s: Seq<u8>) -> Option<u64> {
    match ascii_decimal(s) {
        Some(v) => if v <= u64::MAX {
            Some(v as u64)
        } else {
            None
        },
        None => None,
    }
}

proof fn lemma_digits_value_grows(s: Seq<u8>, k: int)
    requires
        0 <= k <= s.len(),
        all_digits(s),
    ensures
        digits_value(s.subrange(0, k)) <= digits_value(s),
    decreases s.len() - k,
{
    if k < s.len() {
        lemma_digits_value_grows(s, k + 1);
        assert(s.subrange(0, k + 1).drop_last() =~= s.subrange(0, k));
        assert(is_digit(s[k]));
    } else {
        assert(s.subrange(0, k) =~= s);
    }
}

/// The decimal digits of `v`, most significant first, without leading zeros.
pub open spec fn decimal(v: nat) -> Seq<u8>
    decreases v,
{
    if v < 10 {
        seq![digit_char(v)]
    } else {
        decimal(v / 10).push(digit_char(v))
    }
}

proof fn lemma_rjust_zero(w: nat)
    ensures
        rjust(0, w) == spaces(w),
    decreases w,
{
    if w > 0 {
        lemma_rjust_zero((w - 1) as nat);
        assert(rjust(0, w) =~= spaces(w));
    } else {
        assert(rjust(0, w) =~= spaces(w));
    }
}

proof fn lemma_decimal(v: nat)
    ensures
        decimal(v).len() > 0,
        all_digits(decimal(v)),
        digits_value(decimal(v)) == v,
        decimal(v)[0] != SPACE,
    decreases v,
{
    let d = decimal(v);
    if v >= 10 {
        lemma_decimal(v / 10);
        assert(d.drop_last() =~= decimal(v / 10));
        assert(d[0] == decimal(v / 10)[0]);
        assert(d.last() == digit_char(v));
        assert((v / 10) * 10 + v % 10 == v);
        assert(digits_value(d) == digits_value(decimal(v / 10)) * 10 + (d.last() - 48) as nat);
    } else {
        assert(d.drop_last() =~= Seq::<u8>::empty());
        assert(digits_value(d) == digits_value(d.drop_last()) * 10 + (d.last() - 48) as nat);
    }
}

proof fn lemma_rjust_decimal(v: nat, w: nat)
    requires
        0 < v < pow10(w),
    ensures
        decimal(v).len() <= w,
        rjust(v, w) == spaces((w - decimal(v).len()) as nat) + decimal(v),
    decreases w,
{
    if w == 0 {
        assert(false);
    }
    let w1 = (w - 1) as nat;
    if v < 10 {
        lemma_rjust_zero(w1);
        assert(rjust(v, w) =~= spaces((w - decimal(v).len()) as nat) + decimal(v));
    } else {
        assert(v / 10 < pow10(w1)) by (nonlinear_arith)
            requires
                v < pow10(w),
                pow10(w) == 10 * pow10(w1),
        ;
        lemma_rjust_decimal(v / 10, w1);
        assert(rjust(v, w) =~= spaces((w - decimal(v).len()) as nat) + decimal(v));
    }
}

proof fn lemma_trim_start_spaces(k: nat, d: Seq<u8>)
    requires
        d.len() > 0,
        d[0] != SPACE,
    ensures
        trim_start(spaces(k) + d) == d,
    decreases k,
{
    if k > 0 {
        assert((spaces(k) + d).drop_first() =~= spaces((k - 1) as nat) + d);
        lemma_trim_start_spaces((k - 1) as nat, d);
    } else {
        assert(spaces(k) + d =~= d);
    }
}

/// A number written into a numeric field wide enough for it reads back as that number.
pub proof fn lemma_num_field_round_trip(v: u64, w: nat)
    requires
        w > 0,
        (v as nat) < pow10(w),
    ensures
        ascii_u64(num_field(v as nat, w)) == Some(v),
{
    let f = num_field(v as nat, w);
    if v == 0 {
        let d = seq![48u8];
        assert(f =~= spaces((w - 1) as nat) + d);
        lemma_trim_start_spaces((w - 1) as nat, d);
        assert(trim_end(d) == d);
        assert(d.drop_last() =~= Seq::<u8>::empty());
        assert(digits_value(d) == digits_value(d.drop_last()) * 10 + (d.last() - 48) as nat);
        assert(all_digits(d));
    } else {
        lemma_rjust_decimal(v as nat, w);
        lemma_decimal(v as nat);
        let d = decimal(v as nat);
        lemma_trim_start_spaces((w - d.len()) as nat, d);
        assert(d.last() != SPACE) by {
            assert(is_digit(d[d.len() - 1]));
        }
        assert(trim_start(f) == d);
        assert(trim_end(d) == d);
    }
}

/// Every `u64` fits in a sequence-number field and reads back as itself.
pub proof fn lemma_sequence_number_round_trip(v: u64)
    ensures
        ascii_u64(num_field(v as nat, 20)) == Some(v),
{
    reveal_with_fuel(pow10, 21);
    assert(pow10(20) == 100000000000000000000nat);
    lemma_num_field_round_trip(v, 20);
}

/// Copies `s` into a field of `N` bytes: left-aligned, cut or padded on the right with spaces.
pub fn text_array<const N: usize>(s: &[u8]) -> (r: [u8; N])
    ensures
        r@ == text_field(s@, N as nat),
{
    let mut a: [u8; N] = vstd::array::array_fill_for_copy_types(SPACE);
    let n: usize = if s.len() < N {
        s.len()
    } else {
        N
    };
    let mut i: usize = 0;
    while i < n
        invariant
            n <= N,
            n <= s@.len(),
            n == s@.len() || n == N,
            i <= n,
            a@.len() == N,
            forall|j: int| 0 <= j < i ==> a@[j] == s@[j],
            forall|j: int| i <= j < N ==> a@[j] == SPACE,
        decreases n - i,
    {
        a[i] = s[i];
        i = i + 1;
    }
    assert(a@ =~= text_field(s@, N as nat));
    a
}

/// Writes `v` in decimal into a field of `N` bytes, right-aligned and padded on the left with spaces.
pub fn decimal_array<const N: usize>(v: u64) -> (r: [u8; N])
    requires
        N > 0,
    ensures
        r@ == num_field(v as nat, N as nat),
{
    let mut a: [u8; N] = vstd::array::array_fill_for_copy_types(SPACE);
    if v == 0 {
        a[N - 1] = 48u8;
        assert(a@ =~= num_field(0, N as nat));
        return a;
    }
    let mut cur: u64 = v;
    let mut k: usize = N;
    while k > 0
        invariant
            k <= N,
            a@.len() == N,
            rjust(v as nat, N as nat) == rjust(cur as nat, k as nat) + a@.subrange(k as int, N as int),
            forall|j: int| 0 <= j < k ==> a@[j] == SPACE,
        decreases k,
    {
        let d: u8 = if cur == 0 {
            SPACE
        } else {
            (48 + cur % 10) as u8
        };
        let ghost old_a = a@;
        a[k - 1] = d;
        proof {
            assert(rjust(cur as nat, k as nat) == rjust((cur / 10) as nat, (k - 1) as nat).push(d));
            assert(a@.subrange(k - 1, N as int) =~= seq![d] + old_a.subrange(k as int, N as int));
            assert(rjust(cur as nat, k as nat) + old_a.subrange(k as int, N as int) =~= rjust(
                (cur / 10) as nat,
                (k - 1) as nat,
            ) + a@.subrange(k - 1, N as int));
        }
        cur = cur / 10;
        k = k - 1;
    }
    assert(a@.subrange(0, N as int) =~= a@);
    assert(rjust(cur as nat, 0) =~= Seq::<u8>::empty());
    assert(rjust(v as nat, N as nat) =~= a@);
    a
}

/// Reads a numeric field: spaces, then decimal digits, then spaces.
/// `None` where it is not of that form or its value does not fit in a `u64`.
pub fn parse_decimal(s: &[u8]) -> (r: Option<u64>)
    ensures
        r == ascii_u64(s@),
{
    let n = s.len();
    let mut i: usize = 0;
    assert(s@.subrange(0, n as int) =~= s@);
    while i < n && s[i] == SPACE
        invariant
            i <= n,
            n == s@.len(),
            trim_start(s@) == trim_start(s@.subrange(i as int, n as int)),
        decreases n - i,
    {
        assert(s@.subrange(i as int, n as int).drop_first() =~= s@.subrange(i + 1, n as int));
        i = i + 1;
    }
    assert(trim_start(s@) == s@.subrange(i as int, n as int));
    let mut j: usize = n;
    while j > i && s[j - 1] == SPACE
        invariant
            i <= j <= n,
            n == s@.len(),
            trim_end(s@.subrange(i as int, n as int)) == trim_end(s@.subrange(i as int, j as int)),
        decreases j,
    {
        assert(s@.subrange(i as int, j as int).drop_last() =~= s@.subrange(i as int, j - 1));
        j = j - 1;
    }
    let ghost t = s@.subrange(i as int, j as int);
    assert(trim_end(trim_start(s@)) == t);
    if i == j {
        return None;
    }
    let mut val: u64 = 0;
    let mut k: usize = i;
    while k < j
        invariant
            i <= k <= j,
            j <= n,
            n == s@.len(),
            t == s@.subrange(i as int, j as int),
            trim_end(trim_start(s@)) == t,
            all_digits(s@.subrange(i as int, k as int)),
            val as nat == digits_value(s@.subrange(i as int, k as int)),
        decreases j - k,
    {
        let c = s[k];
        assert(s@.subrange(i as int, k + 1).drop_last() =~= s@.subrange(i as int, k as int));
        if c < 48 || c > 57 {
            assert(t[k - i] == s@[k as int]);
            assert(!is_digit(t[k - i]));
            return None;
        }
        let d: u64 = (c - 48) as u64;
        if val > (u64::MAX - d) / 10 {
            proof {
                let u = s@.subrange(i as int, k + 1);
                assert(u.last() == c);
                assert(digits_value(u) == val * 10 + d);
                assert(digits_value(u) > u64::MAX) by (nonlinear_arith)
                    requires
                        val > (u64::MAX - d) / 10,
                        digits_value(u) == val * 10 + d,
                        d <= 9,
                ;
                if all_digits(t) {
                    assert(t.subrange(0, k + 1 - i) =~= u);
                    lemma_digits_value_grows(t, k + 1 - i);
                }
            }
            return None;
        }
        val = val * 10 + d;
        k = k + 1;
    }
    assert(s@.subrange(i as int, k as int) =~= t);
    Some(val)
}

/// Whether two fields of the same width hold the same bytes.
pub fn same_bytes<const N: usize>(a: &[u8; N], b: &[u8; N]) -> (r: bool)
    ensures
        r == (a@ == b@),
{
    let mut i: usize = 0;
    while i < N
        invariant
            i <= N,
            a@.len() == N,
            b@.len() == N,
            forall|j: int| 0 <= j < i ==> a@[j] == b@[j],
        decreases N - i,
    {
        if a[i] != b[i] {
            return false;
        }
        i = i + 1;
    }
    assert(a@ =~= b@);
    true
}

/// The name of a session: ten bytes of text; all spaces stands for the session that is current.
#[derive(PartialEq, Eq, Clone, Copy, Debug)]
pub struct SessionId(pub [u8; 10]);

impl SessionId {
    pub open spec fn view(&self) -> Seq<u8> {
        self.0@
    }

    pub fn new(text: &[u8]) -> (r: Self)
        ensures
            r@ == text_field(text@, 10),
    {
        SessionId(text_array(text))
    }

    /// All spaces: the session that is current.
    pub fn current() -> (r: Self)
        ensures
            r@ == spaces(10),
    {
        let a: [u8; 10] = vstd::array::array_fill_for_copy_types(SPACE);
        assert(a@ =~= spaces(10));
        SessionId(a)
    }

    pub fn is_current(&self) -> (r: bool)
        ensures
            r == (self@ == spaces(10)),
    {
        let c = SessionId::current();
        same_bytes(&self.0, &c.0)
    }

    pub fn same(&self, other: &Self) -> (r: bool)
        ensures
            r == (self@ == other@),
    {
        same_bytes(&self.0, &other.0)
    }
}

impl Default for SessionId {
    fn default() -> (r: Self)
        ensures
            r@ == spaces(10),
    {
        SessionId::current()
    }
}

/// A user name: six bytes of text.
#[derive(PartialEq, Eq, Clone, Copy, Debug)]
pub struct UserName(pub [u8; 6]);

impl UserName {
    pub open spec fn view(&self) -> Seq<u8> {
        self.0@
    }

    pub fn new(text: &[u8]) -> (r: Self)
        ensures
            r@ == text_field(text@, 6),
    {
        UserName(text_array(text))
    }

    pub fn same(&self, other: &Self) -> (r: bool)
        ensures
            r == (self@ == other@),
    {
        same_bytes(&self.0, &other.0)
    }
}

/// A password: ten bytes of text.
#[derive(PartialEq, Eq, Clone, Copy, Debug)]
pub struct Password(pub [u8; 10]);

impl Password {
    pub open spec fn view(&self) -> Seq<u8> {
        self.0@
    }

    pub fn new(text: &[u8]) -> (r: Self)
        ensures
            r@ == text_field(text@, 10),
    {
        Password(text_array(text))
    }

    pub fn same(&self, other: &Self) -> (r: bool)
        ensures
            r == (self@ == other@),
    {
        same_bytes(&self.0, &other.0)
    }
}

/// A sequence number: twenty bytes of decimal; 0 asks for the most recent message.
#[derive(PartialEq, Eq, Clone, Copy, Debug)]
pub struct SequenceNumber(pub [u8; 20]);

impl SequenceNumber {
    pub open spec fn view(&self) -> Seq<u8> {
        self.0@
    }

    pub fn from_u64(v: u64) -> (r: Self)
        ensures
            r@ == num_field(v as nat, 20),
            ascii_u64(r@) == Some(v),
    {
        proof {
            lemma_sequence_number_round_trip(v);
        }
        SequenceNumber(decimal_array(v))
    }

    /// The number the field holds, where it holds one that fits in a `u64`.
    pub fn value(&self) -> (r: Option<u64>)
        ensures
            r == ascii_u64(self@),
    {
        parse_decimal(vstd::array::array_as_slice(&self.0))
    }
}

impl Default for SequenceNumber {
    fn default() -> (r: Self)
        ensures
            r@ == num_field(0, 20),
    {
        SequenceNumber::from_u64(0)
    }
}

/// A heartbeat interval in milliseconds: five bytes of decimal.
#[derive(PartialEq, Eq, Clone, Copy, Debug)]
pub struct TimeoutMs(pub [u8; 5]);

impl TimeoutMs {
    pub open spec fn view(&self) -> Seq<u8> {
        self.0@
    }

    pub fn from_millis(ms: u64) -> (r: Self)
        requires
            ms < 100000,
        ensures
            r@ == num_field(ms as nat, 5),
            ascii_u64(r@) == Some(ms),
    {
        proof {
            reveal_with_fuel(pow10, 6);
            lemma_num_field_round_trip(ms, 5);
        }
        TimeoutMs(decimal_array(ms))
    }

    /// The number of milliseconds the field holds, where it holds a number that fits in a `u64`.
    pub fn value(&self) -> (r: Option<u64>)
        ensures
            r == ascii_u64(self@),
    {
        parse_decimal(vstd::array::array_as_slice(&self.0))
    }
}

/// Why a login was refused: `A`, not authorized, or `S`, session not available.
#[derive(PartialEq, Eq, Clone, Copy, Debug)]
pub struct LoginRejectReason(pub u8);

pub const REJECT_NOT_AUTHORIZED: u8 = 65;

pub const REJECT_SESSION_NOT_AVAILABLE: u8 = 83;

impl LoginRejectReason {
    pub fn new(code: u8) -> (r: Self)
        ensures
            r.0 == code,
    {
        LoginRejectReason(code)
    }

    pub fn is_not_authorized(&self) -> (r: bool)
        ensures
            r == (self.0 == REJECT_NOT_AUTHORIZED),
    {
        self.0 == REJECT_NOT_AUTHORIZED
    }

    pub fn is_session_not_available(&self) -> (r: bool)
        ensures
            r == (self.0 == REJECT_SESSION_NOT_AVAILABLE),
    {
        self.0 == REJECT_SESSION_NOT_AVAILABLE
    }

    pub fn not_authorized() -> (r: Self)
        ensures
            r.0 == REJECT_NOT_AUTHORIZED,
    {
        LoginRejectReason(REJECT_NOT_AUTHORIZED)
    }

    pub fn session_not_available() -> (r: Self)
        ensures
            r.0 == REJECT_SESSION_NOT_AVAILABLE,
    {
        LoginRejectReason(REJECT_SESSION_NOT_AVAILABLE)
    }
}

} // verus!
