//! Works (books) and the validation of the ISBNs they are submitted by.
use vstd::prelude::*;
use vstd::utf8::*;
use crate::text::{chars_of, decimal, decimal_string, owned, push_char};

verus! {

broadcast use vstd::utf8::is_ascii_chars_encode_utf8;

/// A book in the vault, with its processing state and optional Google Books metadata.
///
/// `average_rating_bits` carries the rating's IEEE-754 bit pattern: the library
/// never computes with it, it only hands it through.
pub struct Work {
    pub id: String,
    pub title: String,
    pub author: String,
    pub isbn: Option<String>,
    pub open_library_id: Option<String>,
    pub status: String,
    pub error_msg: Option<String>,
    pub created_at: String,
    pub updated_at: String,
    pub progress_pct: i32,
    pub last_action: String,
    pub reading_status: Option<String>,
    pub cover_image_url: Option<String>,
    pub page_count: Option<i32>,
    pub publisher: Option<String>,
    pub average_rating_bits: Option<u64>,
    pub preview_link: Option<String>,
}

/// The processing states of a work.
#[derive(Debug, Clone, Copy, PartialEq, Eq, Structural)]
pub enum WorkStatus {
    Pending,
    Processing,
    Done,
    Failed,
}

impl WorkStatus {
    /// The name the status is stored and shown under.
    pub open spec fn name(self) -> Seq<char> {
        match self {
            WorkStatus::Pending => "pending"@,
            WorkStatus::Processing => "processing"@,
            WorkStatus::Done => "done"@,
            WorkStatus::Failed => "failed"@,
        }
    }

    /// The name the status is stored and shown under.
    pub fn as_str(self) -> (s: &'static str)
        ensures
            s@ == self.name(),
    {
        match self {
            WorkStatus::Pending => "pending",
            WorkStatus::Processing => "processing",
            WorkStatus::Done => "done",
            WorkStatus::Failed => "failed",
        }
    }
}

/// Why a work could not be submitted or stored.
pub enum WorkError {
    InvalidIsbn(String),
    Duplicate { work_id: String },
    MessagingError(String),
    DatabaseError(String),
}

impl WorkError {
    /// The text that describes the error.
    pub open spec fn message(&self) -> Seq<char> {
        match self {
            WorkError::InvalidIsbn(msg) => msg@,
            WorkError::Duplicate { work_id } => "duplicate ISBN, existing work: "@ + work_id@,
            WorkError::MessagingError(msg) => "messaging error: "@ + msg@,
            WorkError::DatabaseError(msg) => "database error: "@ + msg@,
        }
    }

    /// The text that describes the error.
    pub fn to_string(&self) -> (s: String)
        ensures
            s@ == self.message(),
    {
        match self {
            WorkError::InvalidIsbn(msg) => msg.clone(),
            WorkError::Duplicate { work_id } => {
                let mut s = owned("duplicate ISBN, existing work: ");
                s.append(work_id.as_str());
                s
            },
            WorkError::MessagingError(msg) => {
                let mut s = owned("messaging error: ");
                s.append(msg.as_str());
                s
            },
            WorkError::DatabaseError(msg) => {
                let mut s = owned("database error: ");
                s.append(msg.as_str());
                s
            },
        }
    }
}

/// The number of bytes of the UTF-8 encoding of a character sequence
/// (what `str::len` reports).
pub open spec fn utf8_len(s: Seq<char>) -> nat {
    encode_utf8(s).len()
}

/// The input with every hyphen removed.
pub open spec fn without_hyphens(s: Seq<char>) -> Seq<char> {
    s.filter(|c: char| c != '-')
}

pub open spec fn is_ascii_digit(c: char) -> bool {
    '0' <= c && c <= '9'
}

pub open spec fn all_ascii_digits(s: Seq<char>) -> bool {
    forall|i: int| 0 <= i < s.len() ==> is_ascii_digit(#[trigger] s[i])
}

/// The numeric value of a digit character (`X` counts ten).
pub open spec fn digit_value(c: char) -> int {
    if c == 'X' {
        10
    } else {
        c as int - '0' as int
    }
}

/// ISBN-13 weighted sum of the first `n` characters: weights alternate 1, 3, 1, 3, ...
pub open spec fn isbn13_sum(s: Seq<char>, n: nat) -> int
    decreases n,
{
    if n == 0 {
        0
    } else {
        let i = n - 1;
        isbn13_sum(s, i as nat) + (if i % 2 == 0 {
            digit_value(s[i])
        } else {
            3 * digit_value(s[i])
        })
    }
}

/// ISBN-10 weighted sum of the first `n` characters: position `i` weighs `10 - i`.
pub open spec fn isbn10_sum(s: Seq<char>, n: nat) -> int
    decreases n,
{
    if n == 0 {
        0
    } else {
        let i = n - 1;
        isbn10_sum(s, i as nat) + digit_value(s[i]) * (10 - i)
    }
}

pub open spec fn msg_isbn13_not_digits() -> Seq<char> {
    "Invalid ISBN-13 — must contain only digits"@
}

pub open spec fn msg_isbn13_mismatch() -> Seq<char> {
    "Invalid ISBN-13 — check digit mismatch"@
}

pub open spec fn msg_isbn10_not_digits() -> Seq<char> {
    "Invalid ISBN-10 — non-digit in positions 1–9"@
}

pub open spec fn msg_isbn10_check_char() -> Seq<char> {
    "Invalid ISBN-10 — invalid check character"@
}

pub open spec fn msg_isbn10_mismatch() -> Seq<char> {
    "Invalid ISBN-10 — check digit mismatch"@
}

pub open spec fn msg_isbn_length(n: nat) -> Seq<char> {
    "Invalid ISBN — expected 10 or 13 digits, got "@ + decimal(n)
}

/// The characters at positions 1 to 9 that exist are all digits.
pub open spec fn first_nine_are_digits(c: Seq<char>) -> bool {
    forall|i: int| 0 <= i < 9 && i < c.len() ==> is_ascii_digit(#[trigger] c[i])
}

/// The outcome of checking an ISBN-10 candidate whose encoding is ten bytes long.
pub open spec fn isbn10_verdict(c: Seq<char>) -> Result<Seq<char>, Seq<char>> {
    if !first_nine_are_digits(c) {
        Err(msg_isbn10_not_digits())
    } else if !is_ascii_digit(c[9]) && c[9] != 'X' {
        Err(msg_isbn10_check_char())
    } else if isbn10_sum(c, 10) % 11 != 0 {
        Err(msg_isbn10_mismatch())
    } else {
        Ok(c)
    }
}

/// The outcome of checking an ISBN-13 candidate whose encoding is thirteen bytes long.
pub open spec fn isbn13_verdict(c: Seq<char>) -> Result<Seq<char>, Seq<char>> {
    if !all_ascii_digits(c) {
        Err(msg_isbn13_not_digits())
    } else if isbn13_sum(c, 13) % 10 != 0 {
        Err(msg_isbn13_mismatch())
    } else {
        Ok(c)
    }
}

/// What `validate_isbn` answers: the hyphen-free ISBN, or the message that says why it is refused.
/// The length that decides between the two formats is the byte length of the hyphen-free input.
pub open spec fn isbn_verdict(s: Seq<char>) -> Result<Seq<char>, Seq<char>> {
    let c = without_hyphens(s);
    let n = utf8_len(c);
    if n == 13 {
        isbn13_verdict(c)
    } else if n == 10 {
        isbn10_verdict(c)
    } else {
        Err(msg_isbn_length(n))
    }
}

/// Every character takes at least one byte in UTF-8.
pub proof fn lemma_utf8_len_at_least_chars(s: Seq<char>)
    ensures
        utf8_len(s) >= s.len(),
    decreases s.len(),
{
    if s.len() > 0 {
        lemma_utf8_len_at_least_chars(s.drop_first());
    }
}

/// A sequence whose bytes number ten and whose first nine characters are digits has
/// exactly ten characters.
proof fn lemma_ten_bytes_nine_digits(c: Seq<char>)
    requires
        utf8_len(c) == 10,
        forall|i: int| 0 <= i < 9 && i < c.len() ==> is_ascii_digit(#[trigger] c[i]),
    ensures
        c.len() == 10,
{
    lemma_utf8_len_at_least_chars(c);
    if c.len() < 10 {
        assert(is_ascii_chars(c));
        assert(encode_utf8(c).len() == c.len());
    }
}

/// Removes hyphens from a character vector.
fn strip_hyphens(v: &Vec<char>) -> (r: Vec<char>)
    ensures
        r@ == without_hyphens(v@),
{
    let mut r: Vec<char> = Vec::new();
    let mut i: usize = 0;
    while i < v.len()
        invariant
            i <= v.len(),
            r@ == without_hyphens(v@.take(i as int)),
        decreases v.len() - i,
    {
        let c = v[i];
        proof {
            assert(v@.take(i + 1).drop_last() =~= v@.take(i as int));
            reveal_with_fuel(Seq::filter, 1);
        }
        if c != '-' {
            r.push(c);
        }
        i = i + 1;
    }
    assert(v@.take(v.len() as int) =~= v@);
    r
}

/// The value of an ASCII digit character, or ten for `X`.
fn digit_of(c: char) -> (d: u32)
    requires
        is_ascii_digit(c) || c == 'X',
    ensures
        d == digit_value(c),
        d <= 10,
{
    if c == 'X' {
        10
    } else {
        (c as u32) - ('0' as u32)
    }
}

/// Checks the ISBN-13 checksum of thirteen ASCII digits.
fn validate_isbn13(c: &Vec<char>) -> (r: Result<(), WorkError>)
    requires
        c@.len() == 13,
        all_ascii_digits(c@),
    ensures
        r is Ok <==> isbn13_sum(c@, 13) % 10 == 0,
        r matches Err(WorkError::InvalidIsbn(m)) ==> m@ == msg_isbn13_mismatch(),
        r is Err ==> r matches Err(WorkError::InvalidIsbn(_)),
{
    let mut sum: u32 = 0;
    let mut i: usize = 0;
    while i < 13
        invariant
            i <= 13,
            c@.len() == 13,
            all_ascii_digits(c@),
            sum == isbn13_sum(c@, i as nat),
            sum <= 27 * i,
        decreases 13 - i,
    {
        let d = digit_of(c[i]);
        if i % 2 == 0 {
            sum = sum + d;
        } else {
            sum = sum + d * 3;
        }
        i = i + 1;
    }
    if sum % 10 != 0 {
        return Err(WorkError::InvalidIsbn(owned("Invalid ISBN-13 — check digit mismatch")));
    }
    Ok(())
}

/// Checks the characters and the checksum of a ten-byte ISBN-10 candidate.
fn validate_isbn10(c: &Vec<char>) -> (r: Result<(), WorkError>)
    requires
        utf8_len(c@) == 10,
    ensures
        r is Ok <==> isbn10_verdict(c@) is Ok,
        r matches Err(WorkError::InvalidIsbn(m)) ==> isbn10_verdict(c@) == Err::<Seq<char>, Seq<char>>(m@),
        r is Err ==> r matches Err(WorkError::InvalidIsbn(_)),
{
    let mut i: usize = 0;
    while i < 9 && i < c.len()
        invariant
            i <= 9,
            i <= c.len(),
            forall|j: int| 0 <= j < i ==> is_ascii_digit(#[trigger] c@[j]),
        decreases 9 - i,
    {
        let ch = c[i];
        if !('0' <= ch && ch <= '9') {
            return Err(WorkError::InvalidIsbn(owned("Invalid ISBN-10 — non-digit in positions 1–9")));
        }
        i = i + 1;
    }
    proof {
        lemma_ten_bytes_nine_digits(c@);
    }
    let last = c[9];
    if !('0' <= last && last <= '9') && last != 'X' {
        return Err(WorkError::InvalidIsbn(owned("Invalid ISBN-10 — invalid check character")));
    }
    let mut sum: u32 = 0;
    let mut k: usize = 0;
    while k < 10
        invariant
            k <= 10,
            c@.len() == 10,
            forall|j: int| 0 <= j < 9 ==> is_ascii_digit(#[trigger] c@[j]),
            is_ascii_digit(c@[9]) || c@[9] == 'X',
            sum == isbn10_sum(c@, k as nat),
            sum <= 100 * k,
        decreases 10 - k,
    {
        let d = digit_of(c[k]);
        let w: u32 = 10 - k as u32;
        assert(d * w <= 100) by (nonlinear_arith)
            requires
                d <= 10,
                w <= 10,
        ;
        sum = sum + d * w;
        k = k + 1;
    }
    if sum % 11 != 0 {
        return Err(WorkError::InvalidIsbn(owned("Invalid ISBN-10 — check digit mismatch")));
    }
    Ok(())
}

/// Validates and normalises an ISBN-10 or ISBN-13 string.
/// Hyphens are stripped before validation; the answer is the hyphen-free ISBN,
/// or `WorkError::InvalidIsbn` with the message that says why it was refused.
pub fn validate_isbn(isbn: &str) -> (r: Result<String, WorkError>)
    ensures
        match r {
            Ok(s) => isbn_verdict(isbn@) == Ok::<Seq<char>, Seq<char>>(s@),
            Err(WorkError::InvalidIsbn(m)) => isbn_verdict(isbn@) == Err::<Seq<char>, Seq<char>>(m@),
            Err(_) => false,
        },
{
    let chars = chars_of(isbn);
    let cleaned = strip_hyphens(&chars);
    let mut cleaned_string = String::new();
    let mut i: usize = 0;
    while i < cleaned.len()
        invariant
            i <= cleaned.len(),
            cleaned_string@ == cleaned@.take(i as int),
        decreases cleaned.len() - i,
    {
        push_char(&mut cleaned_string, cleaned[i]);
        assert(cleaned@.take(i as int).push(cleaned@[i as int]) =~= cleaned@.take(i + 1));
        i = i + 1;
    }
    assert(cleaned@.take(cleaned.len() as int) =~= cleaned@);
    let n = cleaned_string.as_str().as_bytes().len();
    if n == 13 {
        let mut k: usize = 0;
        while k < cleaned.len()
            invariant
                k <= cleaned.len(),
                forall|j: int| 0 <= j < k ==> is_ascii_digit(#[trigger] cleaned@[j]),
                utf8_len(cleaned@) == 13,
                cleaned@ == without_hyphens(isbn@),
            decreases cleaned.len() - k,
        {
            let ch = cleaned[k];
            if !('0' <= ch && ch <= '9') {
                assert(!is_ascii_digit(cleaned@[k as int]));
                return Err(WorkError::InvalidIsbn(owned("Invalid ISBN-13 — must contain only digits")));
            }
            k = k + 1;
        }
        proof {
            assert(is_ascii_chars(cleaned@));
        }
        match validate_isbn13(&cleaned) {
            Ok(()) => Ok(cleaned_string),
            Err(e) => Err(e),
        }
    } else if n == 10 {
        match validate_isbn10(&cleaned) {
            Ok(()) => Ok(cleaned_string),
            Err(e) => Err(e),
        }
    } else {
        let mut m = owned("Invalid ISBN — expected 10 or 13 digits, got ");
        let digits = decimal_string(n as u64);
        m.append(digits.as_str());
        Err(WorkError::InvalidIsbn(m))
    }
}

/// Removing hyphens a second time changes nothing.
pub proof fn lemma_without_hyphens_idempotent(s: Seq<char>)
    ensures
        without_hyphens(without_hyphens(s)) == without_hyphens(s),
    decreases s.len(),
{
    reveal_with_fuel(Seq::filter, 1);
    if s.len() > 0 {
        lemma_without_hyphens_idempotent(s.drop_last());
        let f = without_hyphens(s.drop_last());
        if s.last() != '-' {
            assert(f.push(s.last()).drop_last() =~= f);
        }
    }
}

/// A hyphen-free sequence has no hyphen in it.
pub proof fn lemma_without_hyphens_has_none(s: Seq<char>)
    ensures
        !without_hyphens(s).contains('-'),
{
    let p = |c: char| c != '-';
    assert forall|i: int| 0 <= i < without_hyphens(s).len() implies without_hyphens(s)[i] != '-' by {
        s.lemma_filter_pred(p, i);
    }
}

/// An ISBN-13 in its accepted form: thirteen digits whose weighted sum is a multiple of ten.
pub open spec fn is_valid_isbn13(c: Seq<char>) -> bool {
    &&& c.len() == 13
    &&& all_ascii_digits(c)
    &&& isbn13_sum(c, 13) % 10 == 0
}

/// An ISBN-10 in its accepted form: nine digits, then a digit or `X`, whose weighted sum is a
/// multiple of eleven.
pub open spec fn is_valid_isbn10(c: Seq<char>) -> bool {
    &&& c.len() == 10
    &&& first_nine_are_digits(c)
    &&& (is_ascii_digit(c[9]) || c[9] == 'X')
    &&& isbn10_sum(c, 10) % 11 == 0
}

/// Hyphens do not matter: an ISBN with hyphens gets the same answer as without them.
pub proof fn law_isbn_ignores_hyphens(s: Seq<char>)
    ensures
        isbn_verdict(s) == isbn_verdict(without_hyphens(s)),
{
    lemma_without_hyphens_idempotent(s);
}

/// An accepted ISBN comes back hyphen-free, as a valid ISBN-13 or ISBN-10, and is itself
/// accepted unchanged: normalising is idempotent.
pub proof fn law_accepted_isbn_is_normalised(s: Seq<char>)
    ensures
        isbn_verdict(s) is Ok ==> {
            let c = isbn_verdict(s)->Ok_0;
            &&& c == without_hyphens(s)
            &&& !c.contains('-')
            &&& is_valid_isbn13(c) || is_valid_isbn10(c)
            &&& isbn_verdict(c) == Ok::<Seq<char>, Seq<char>>(c)
        },
{
    let c = without_hyphens(s);
    lemma_without_hyphens_idempotent(s);
    lemma_without_hyphens_has_none(s);
    if isbn_verdict(s) is Ok {
        if utf8_len(c) == 13 {
            assert(is_ascii_chars(c));
            assert(c.len() == 13);
        } else {
            lemma_ten_bytes_nine_digits(c);
        }
    }
}

/// The weighted ISBN-13 sums of two sequences that differ at position `i` only.
proof fn lemma_isbn13_sum_difference(c: Seq<char>, d: Seq<char>, i: int, n: nat)
    requires
        c.len() == d.len(),
        n <= c.len(),
        0 <= i < c.len(),
        forall|j: int| 0 <= j < c.len() && j != i ==> c[j] == d[j],
    ensures
        isbn13_sum(d, n) - isbn13_sum(c, n) == if i < n {
            (if i % 2 == 0 { 1int } else { 3int }) * (digit_value(d[i]) - digit_value(c[i]))
        } else {
            0
        },
    decreases n,
{
    if n > 0 {
        lemma_isbn13_sum_difference(c, d, i, (n - 1) as nat);
    }
}

/// The weighted ISBN-10 sums of two sequences that differ at position `i` only.
proof fn lemma_isbn10_sum_difference(c: Seq<char>, d: Seq<char>, i: int, n: nat)
    requires
        c.len() == d.len(),
        n <= c.len(),
        0 <= i < c.len(),
        forall|j: int| 0 <= j < c.len() && j != i ==> c[j] == d[j],
    ensures
        isbn10_sum(d, n) - isbn10_sum(c, n) == if i < n {
            (digit_value(d[i]) - digit_value(c[i])) * (10 - i)
        } else {
            0
        },
    decreases n,
{
    if n > 0 {
        lemma_isbn10_sum_difference(c, d, i, (n - 1) as nat);
        let k = n - 1;
        if k == i {
            assert(digit_value(d[k]) * (10 - k) - digit_value(c[k]) * (10 - k) == (digit_value(
                d[i],
            ) - digit_value(c[i])) * (10 - i)) by (nonlinear_arith)
                requires
                    k == i,
            ;
        }
    }
}

/// No nonzero multiple below eleven in size of a weight from one to ten is divisible by eleven.
proof fn lemma_not_multiple_of_eleven(x: int, w: int)
    requires
        -10 <= x <= 10,
        x != 0,
        1 <= w <= 10,
    ensures
        (x * w) % 11 != 0,
{
    if w == 1 {
    } else if w == 2 {
        assert(x * w == 2 * x);
    } else if w == 3 {
        assert(x * w == 3 * x);
    } else if w == 4 {
        assert(x * w == 4 * x);
    } else if w == 5 {
        assert(x * w == 5 * x);
    } else if w == 6 {
        assert(x * w == 6 * x);
    } else if w == 7 {
        assert(x * w == 7 * x);
    } else if w == 8 {
        assert(x * w == 8 * x);
    } else if w == 9 {
        assert(x * w == 9 * x);
    } else {
        assert(x * w == 10 * x);
    }
}

/// The ISBN-13 check detects every error in a single digit: changing one digit of a valid
/// ISBN-13 into another digit gives an ISBN-13 that is refused.
pub proof fn law_isbn13_detects_single_digit_errors(c: Seq<char>, d: Seq<char>, i: int)
    requires
        is_valid_isbn13(c),
        d.len() == 13,
        all_ascii_digits(d),
        0 <= i < 13,
        d[i] != c[i],
        forall|j: int| 0 <= j < 13 && j != i ==> c[j] == d[j],
    ensures
        isbn13_verdict(d) is Err,
{
    lemma_isbn13_sum_difference(c, d, i, 13);
    let x = digit_value(d[i]) - digit_value(c[i]);
    assert(is_ascii_digit(c[i]) && is_ascii_digit(d[i]));
    assert(x != 0);
}

/// The ISBN-10 check detects every error in a single character: changing one character of a
/// valid ISBN-10 into another allowed character gives an ISBN-10 that is refused.
pub proof fn law_isbn10_detects_single_character_errors(c: Seq<char>, d: Seq<char>, i: int)
    requires
        is_valid_isbn10(c),
        d.len() == 10,
        first_nine_are_digits(d),
        is_ascii_digit(d[9]) || d[9] == 'X',
        0 <= i < 10,
        d[i] != c[i],
        forall|j: int| 0 <= j < 10 && j != i ==> c[j] == d[j],
    ensures
        isbn10_verdict(d) is Err,
{
    lemma_isbn10_sum_difference(c, d, i, 10);
    let x = digit_value(d[i]) - digit_value(c[i]);
    assert(is_ascii_digit(c[i]) || c[i] == 'X');
    assert(is_ascii_digit(d[i]) || d[i] == 'X');
    assert(x != 0);
    lemma_not_multiple_of_eleven(x, 10 - i);
}

/// The value of an ISBN-10 character: its digit, or ten for `X`.
pub open spec fn isbn10_char_value(ch: char) -> int {
    if ch == 'X' {
        10
    } else {
        ch as int - '0' as int
    }
}

/// The ISBN-10 check total, written out: ten times the first character, nine times the
/// second, and so on down to once the tenth.
pub open spec fn isbn10_check_total(c: Seq<char>) -> int {
    10 * isbn10_char_value(c[0]) + 9 * isbn10_char_value(c[1]) + 8 * isbn10_char_value(c[2]) + 7
        * isbn10_char_value(c[3]) + 6 * isbn10_char_value(c[4]) + 5 * isbn10_char_value(c[5]) + 4
        * isbn10_char_value(c[6]) + 3 * isbn10_char_value(c[7]) + 2 * isbn10_char_value(c[8])
        + isbn10_char_value(c[9])
}

/// A text without hyphens is left as it is by removing hyphens.
proof fn lemma_no_hyphens_unchanged(s: Seq<char>)
    requires
        forall|i: int| 0 <= i < s.len() ==> s[i] != '-',
    ensures
        without_hyphens(s) == s,
    decreases s.len(),
{
    reveal_with_fuel(Seq::filter, 1);
    if s.len() > 0 {
        lemma_no_hyphens_unchanged(s.drop_last());
        assert(s.drop_last().push(s.last()) =~= s);
    } else {
        assert(s =~= Seq::<char>::empty());
    }
}

/// Every well-formed ISBN-10 is accepted as it is: ten characters, the first nine digits, the
/// last a digit (`0` included) or `X`, and a check total that is a multiple of eleven.
#[verifier::spinoff_prover]
pub proof fn law_valid_isbn10_is_accepted(c: Seq<char>)
    requires
        c.len() == 10,
        forall|i: int| 0 <= i < 9 ==> '0' <= #[trigger] c[i] && c[i] <= '9',
        ('0' <= c[9] && c[9] <= '9') || c[9] == 'X',
        isbn10_check_total(c) % 11 == 0,
    ensures
        isbn_verdict(c) == Ok::<Seq<char>, Seq<char>>(c),
{
    lemma_no_hyphens_unchanged(c);
    assert(is_ascii_chars(c));
    assert(utf8_len(c) == 10);
    assert(isbn10_sum(c, 0) == 0);
    assert(isbn10_sum(c, 1) == isbn10_sum(c, 0) + digit_value(c[0]) * 10);
    assert(isbn10_sum(c, 2) == isbn10_sum(c, 1) + digit_value(c[1]) * 9);
    assert(isbn10_sum(c, 3) == isbn10_sum(c, 2) + digit_value(c[2]) * 8);
    assert(isbn10_sum(c, 4) == isbn10_sum(c, 3) + digit_value(c[3]) * 7);
    assert(isbn10_sum(c, 5) == isbn10_sum(c, 4) + digit_value(c[4]) * 6);
    assert(isbn10_sum(c, 6) == isbn10_sum(c, 5) + digit_value(c[5]) * 5);
    assert(isbn10_sum(c, 7) == isbn10_sum(c, 6) + digit_value(c[6]) * 4);
    assert(isbn10_sum(c, 8) == isbn10_sum(c, 7) + digit_value(c[7]) * 3);
    assert(isbn10_sum(c, 9) == isbn10_sum(c, 8) + digit_value(c[8]) * 2);
    assert(isbn10_sum(c, 10) == isbn10_sum(c, 9) + digit_value(c[9]) * 1);
    assert forall|i: int| 0 <= i < 10 implies digit_value(#[trigger] c[i]) == isbn10_char_value(c[i]) by {}
}

/// The value of a decimal digit character.
pub open spec fn digit_char_value(ch: char) -> int {
    ch as int - '0' as int
}

/// The ISBN-13 check total, written out: the digits weighed 1, 3, 1, 3, ... from the first.
pub open spec fn isbn13_check_total(c: Seq<char>) -> int {
    digit_char_value(c[0]) + 3 * digit_char_value(c[1]) + digit_char_value(c[2]) + 3 * digit_char_value(c[3])
        + digit_char_value(c[4]) + 3 * digit_char_value(c[5]) + digit_char_value(c[6]) + 3 * digit_char_value(
        c[7],
    ) + digit_char_value(c[8]) + 3 * digit_char_value(c[9]) + digit_char_value(c[10]) + 3 * digit_char_value(
        c[11],
    ) + digit_char_value(c[12])
}

/// Every well-formed ISBN-13 is accepted as it is: thirteen digits whose check total is a
/// multiple of ten.
#[verifier::spinoff_prover]
pub proof fn law_valid_isbn13_is_accepted(c: Seq<char>)
    requires
        c.len() == 13,
        forall|i: int| 0 <= i < 13 ==> '0' <= #[trigger] c[i] && c[i] <= '9',
        isbn13_check_total(c) % 10 == 0,
    ensures
        isbn_verdict(c) == Ok::<Seq<char>, Seq<char>>(c),
{
    lemma_no_hyphens_unchanged(c);
    assert(is_ascii_chars(c));
    assert(utf8_len(c) == 13);
    assert(isbn13_sum(c, 0) == 0);
    assert(isbn13_sum(c, 1) == isbn13_sum(c, 0) + digit_value(c[0]));
    assert(isbn13_sum(c, 2) == isbn13_sum(c, 1) + 3 * digit_value(c[1]));
    assert(isbn13_sum(c, 3) == isbn13_sum(c, 2) + digit_value(c[2]));
    assert(isbn13_sum(c, 4) == isbn13_sum(c, 3) + 3 * digit_value(c[3]));
    assert(isbn13_sum(c, 5) == isbn13_sum(c, 4) + digit_value(c[4]));
    assert(isbn13_sum(c, 6) == isbn13_sum(c, 5) + 3 * digit_value(c[5]));
    assert(isbn13_sum(c, 7) == isbn13_sum(c, 6) + digit_value(c[6]));
    assert(isbn13_sum(c, 8) == isbn13_sum(c, 7) + 3 * digit_value(c[7]));
    assert(isbn13_sum(c, 9) == isbn13_sum(c, 8) + digit_value(c[8]));
    assert(isbn13_sum(c, 10) == isbn13_sum(c, 9) + 3 * digit_value(c[9]));
    assert(isbn13_sum(c, 11) == isbn13_sum(c, 10) + digit_value(c[10]));
    assert(isbn13_sum(c, 12) == isbn13_sum(c, 11) + 3 * digit_value(c[11]));
    assert(isbn13_sum(c, 13) == isbn13_sum(c, 12) + digit_value(c[12]));
    assert forall|i: int| 0 <= i < 13 implies digit_value(#[trigger] c[i]) == digit_char_value(c[i]) by {}
    assert(all_ascii_digits(c));
}

} // verus!
