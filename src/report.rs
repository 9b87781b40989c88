//! The snapshot of a ledger as text: a header, then one line per account
//! with its client id, available, held and total funds to four decimal
//! places, and whether it is locked.

use crate::account::Account;
use vstd::prelude::*;

verus! {

/// The character of a decimal digit.
pub open spec fn digit_char(d: int) -> char {
    if d == 0 {
        '0'
    } else if d == 1 {
        '1'
    } else if d == 2 {
        '2'
    } else if d == 3 {
        '3'
    } else if d == 4 {
        '4'
    } else if d == 5 {
        '5'
    } else if d == 6 {
        '6'
    } else if d == 7 {
        '7'
    } else if d == 8 {
        '8'
    } else {
        '9'
    }
}

/// A whole number written in base ten, without leading zeros.
pub open spec fn digits_text(n: nat) -> Seq<char>
    decreases n,
{
    if n < 10 {
        seq![digit_char(n as int)]
    } else {
        digits_text(n / 10).push(digit_char((n % 10) as int))
    }
}

/// A count of ten-thousandths written as a decimal of four places, such as
/// `-3.0500`.
pub open spec fn amount_text(v: int) -> Seq<char> {
    let m = if v < 0 {
        -v
    } else {
        v
    };
    let f = m % 10000;
    let sign = if v < 0 {
        seq!['-']
    } else {
        Seq::<char>::empty()
    };
    sign + digits_text((m / 10000) as nat) + seq![
        '.',
        digit_char(f / 1000),
        digit_char(f / 100 % 10),
        digit_char(f / 10 % 10),
        digit_char(f % 10),
    ]
}

/// A flag written as `true` or `false`.
pub open spec fn bool_text(b: bool) -> Seq<char> {
    if b {
        "true"@
    } else {
        "false"@
    }
}

/// The line of one account: client, available, held, total and locked,
/// separated by a comma and a space.
pub open spec fn row_text(a: Account) -> Seq<char> {
    digits_text(a.client_id as nat) + ", "@ + amount_text(a.available.scaled as int) + ", "@
        + amount_text(a.held.scaled as int) + ", "@ + amount_text(a.total()) + ", "@ + bool_text(
        a.locked,
    )
}

/// The header line followed by one line per account, in the order given,
/// each line ended by a newline.
pub open spec fn table_text(accounts: Seq<Account>) -> Seq<char>
    decreases accounts.len(),
{
    if accounts.len() == 0 {
        "client, available, held, total, locked"@.push('\n')
    } else {
        table_text(accounts.drop_last()) + row_text(accounts.last()).push('\n')
    }
}

/// Relies on `FromIterator<char> for String`: the string of the characters
/// of `chars`, in order.
#[verifier::external_body]
fn string_of(chars: &Vec<char>) -> (r: String)
    ensures
        r@ == chars@,
{
    chars.iter().collect()
}

fn push_text(out: &mut Vec<char>, text: &str)
    ensures
        final(out)@ == old(out)@ + text@,
{
    let n = text.unicode_len();
    let mut i: usize = 0;
    while i < n
        invariant
            n == text@.len(),
            i <= n,
            out@ == old(out)@ + text@.subrange(0, i as int),
        decreases n - i,
    {
        out.push(text.get_char(i));
        assert(text@.subrange(0, i + 1) =~= text@.subrange(0, i as int).push(text@[i as int]));
        i = i + 1;
    }
    assert(text@.subrange(0, n as int) =~= text@);
}

fn digit(d: u128) -> (r: char)
    requires
        d < 10,
    ensures
        r == digit_char(d as int),
{
    if d == 0 {
        '0'
    } else if d == 1 {
        '1'
    } else if d == 2 {
        '2'
    } else if d == 3 {
        '3'
    } else if d == 4 {
        '4'
    } else if d == 5 {
        '5'
    } else if d == 6 {
        '6'
    } else if d == 7 {
        '7'
    } else if d == 8 {
        '8'
    } else {
        '9'
    }
}

fn push_digits(out: &mut Vec<char>, n: u128)
    ensures
        final(out)@ == old(out)@ + digits_text(n as nat),
    decreases n,
{
    if n < 10 {
        out.push(digit(n));
        assert(seq![digit_char(n as int)] =~= digits_text(n as nat));
    } else {
        push_digits(out, n / 10);
        out.push(digit(n % 10));
        assert(digits_text(n as nat) == digits_text((n / 10) as nat).push(digit_char((n % 10) as int)));
    }
}

fn push_amount(out: &mut Vec<char>, v: i128)
    requires
        -0x1_0000_0000_0000_0000_0000 < v < 0x1_0000_0000_0000_0000_0000,
    ensures
        final(out)@ == old(out)@ + amount_text(v as int),
{
    let m: u128 = if v < 0 {
        (-v) as u128
    } else {
        v as u128
    };
    let f = m % 10000;
    if v < 0 {
        out.push('-');
    }
    let ghost signed = out@;
    push_digits(out, m / 10000);
    out.push('.');
    out.push(digit(f / 1000));
    out.push(digit(f / 100 % 10));
    out.push(digit(f / 10 % 10));
    out.push(digit(f % 10));
    assert(out@ =~= old(out)@ + amount_text(v as int));
}

impl Account {
    /// The account's line of the snapshot, such as
    /// `2, 2.0000, 0.1234, 2.1234, false`.
    pub fn to_row(&self) -> (r: String)
        ensures
            r@ == row_text(*self),
    {
        let mut out: Vec<char> = Vec::new();
        self.push_row(&mut out);
        string_of(&out)
    }

    fn push_row(&self, out: &mut Vec<char>)
        ensures
            final(out)@ == old(out)@ + row_text(*self),
    {
        push_digits(out, self.client_id as u128);
        push_text(out, ", ");
        push_amount(out, self.available.scaled as i128);
        push_text(out, ", ");
        push_amount(out, self.held.scaled as i128);
        push_text(out, ", ");
        push_amount(out, self.available.scaled as i128 + self.held.scaled as i128);
        push_text(out, ", ");
        if self.locked {
            push_text(out, "true");
        } else {
            push_text(out, "false");
        }
        assert(out@ =~= old(out)@ + row_text(*self));
    }
}

/// The snapshot of `accounts`: the header `client, available, held, total,
/// locked`, then one line per account in the order given.
pub fn render(accounts: &Vec<Account>) -> (r: String)
    ensures
        r@ == table_text(accounts@),
{
    let mut out: Vec<char> = Vec::new();
    push_text(&mut out, "client, available, held, total, locked");
    out.push('\n');
    let mut i: usize = 0;
    while i < accounts.len()
        invariant
            i <= accounts@.len(),
            out@ == table_text(accounts@.take(i as int)),
        decreases accounts@.len() - i,
    {
        proof {
            assert(accounts@.take(i + 1).drop_last() =~= accounts@.take(i as int));
        }
        accounts[i].push_row(&mut out);
        out.push('\n');
        i = i + 1;
    }
    assert(accounts@.take(accounts@.len() as int) =~= accounts@);
    string_of(&out)
}

} // verus!
