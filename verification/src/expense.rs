use vstd::prelude::*;
use vstd::string::StringExecFns;

use crate::date::Date;
use crate::digits::dec_seq;
use crate::digits::dec_val;
use crate::digits::pad2;
use crate::digits::parse_amount;
use crate::digits::push_dec;
use crate::digits::push_pad2;
use crate::digits::valid_amount;
use crate::errors::BuyError;

verus! {

/// The closed set of recognized expense categories. Each category is bound
/// to one human-readable label and one fixed (destination, source) account
/// pair; the mapping is total and never changes.
#[derive(Debug, Clone, Copy, PartialEq, Eq, Structural)]
pub enum Expense {
    Shufersal,
    KeterHabasar,
    TalTavlinim,
}

/// The category, if any, whose canonical short name is exactly `s`.
/// Matching is exact and case-sensitive; anything else is no category.
pub open spec fn parse_cat(s: Seq<char>) -> Option<Expense> {
    if s == "shufersal"@ {
        Some(Expense::Shufersal)
    } else if s == "keter"@ {
        Some(Expense::KeterHabasar)
    } else if s == "tal"@ {
        Some(Expense::TalTavlinim)
    } else {
        None
    }
}

/// The label printed on the ledger's date line for each category.
pub open spec fn desc_spec(e: Expense) -> Seq<char> {
    match e {
        Expense::Shufersal => "Shufersal"@,
        Expense::KeterHabasar => "Keter Habasar"@,
        Expense::TalTavlinim => "Tal Tavlinim"@,
    }
}

/// The destination (expense) account charged for each category.
pub open spec fn dest_account_spec(e: Expense) -> Seq<char> {
    match e {
        Expense::Shufersal => "expenses:food"@,
        Expense::KeterHabasar => "expenses:food"@,
        Expense::TalTavlinim => "expenses:food"@,
    }
}

/// The source (liability) account credited for each category.
pub open spec fn source_account_spec(e: Expense) -> Seq<char> {
    match e {
        Expense::Shufersal => "liability:credit card:fibi:shufersal"@,
        Expense::KeterHabasar => "liability:credit card:fibi:shufersal"@,
        Expense::TalTavlinim => "liability:credit card:fibi:shufersal"@,
    }
}

impl Expense {
    /// Exact, case-sensitive match of `s` against the canonical short names;
    /// any other token fails with `InvalidExpense` carrying that token.
    pub fn parse(s: String) -> (r: Result<Expense, BuyError>)
        ensures
            match parse_cat(s@) {
                Some(e) => r == Ok::<Expense, BuyError>(e),
                None => (r matches Err(BuyError::InvalidExpense(t)) && t@ == s@),
            },
    {
        if s == String::from_str("shufersal") {
            Ok(Expense::Shufersal)
        } else if s == String::from_str("keter") {
            Ok(Expense::KeterHabasar)
        } else if s == String::from_str("tal") {
            Ok(Expense::TalTavlinim)
        } else {
            Err(BuyError::InvalidExpense(s))
        }
    }

    /// The category's human-readable label.
    pub fn desc(&self) -> (r: &'static str)
        ensures
            r@ == desc_spec(*self),
    {
        match self {
            Expense::Shufersal => "Shufersal",
            Expense::KeterHabasar => "Keter Habasar",
            Expense::TalTavlinim => "Tal Tavlinim",
        }
    }

    /// The category's destination account.
    pub fn dest_account(&self) -> (r: &'static str)
        ensures
            r@ == dest_account_spec(*self),
    {
        match self {
            Expense::Shufersal => "expenses:food",
            Expense::KeterHabasar => "expenses:food",
            Expense::TalTavlinim => "expenses:food",
        }
    }

    /// The category's source account.
    pub fn source_account(&self) -> (r: &'static str)
        ensures
            r@ == source_account_spec(*self),
    {
        match self {
            Expense::Shufersal => "liability:credit card:fibi:shufersal",
            Expense::KeterHabasar => "liability:credit card:fibi:shufersal",
            Expense::TalTavlinim => "liability:credit card:fibi:shufersal",
        }
    }
}

/// The exact ledger block recorded for one purchase: a blank leading line, a
/// date line `year/month/day label` with the month and day zero-padded to two
/// digits, an indented destination-account line with the amount after a
/// shekel sign, and an indented source-account line.
pub open spec fn fmt_spec(e: Expense, amount: u32, now: Date) -> Seq<char> {
    "\n"@ + dec_seq(now.year as nat) + "/"@ + pad2(now.month as nat) + "/"@ + pad2(
        now.day as nat,
    ) + " "@ + desc_spec(e) + "\n    "@ + dest_account_spec(e) + "  \u{20aa}"@ + dec_seq(
        amount as nat,
    ) + "\n    "@ + source_account_spec(e) + "\n"@
}

impl Expense {
    /// Builds the ledger block for one purchase of `amount` in this category
    /// on the calendar date `now`. Pure: the caller appends the returned
    /// block to the ledger file.
    pub fn fmt(&self, amount: u32, now: Date) -> (r: String)
        requires
            now.wf(),
        ensures
            r@ == fmt_spec(*self, amount, now),
    {
        let mut out = String::from_str("\n");
        push_dec(&mut out, now.year);
        out.append("/");
        push_pad2(&mut out, now.month as u32);
        out.append("/");
        push_pad2(&mut out, now.day as u32);
        out.append(" ");
        out.append(self.desc());
        out.append("\n    ");
        out.append(self.dest_account());
        out.append("  \u{20aa}");
        push_dec(&mut out, amount);
        out.append("\n    ");
        out.append(self.source_account());
        out.append("\n");
        proof {
            assert(out@ =~= fmt_spec(*self, amount, now));
        }
        out
    }
}

/// One purchase, from the two raw tokens to the ledger block: parses the
/// category token, then the amount token, and formats the block for the
/// calendar date `now`. The first token that fails to parse decides the
/// error; the caller appends the returned block to the ledger file.
pub fn record_purchase(expense_tok: String, amount_tok: String, now: Date) -> (r: Result<
    String,
    BuyError,
>)
    requires
        now.wf(),
    ensures
        match parse_cat(expense_tok@) {
            None => (r matches Err(BuyError::InvalidExpense(t)) && t@ == expense_tok@),
            Some(e) => {
                if valid_amount(amount_tok@) {
                    r matches Ok(b) && b@ == fmt_spec(e, dec_val(amount_tok@) as u32, now)
                } else {
                    r matches Err(BuyError::InvalidAmount(t)) && t@ == amount_tok@
                }
            },
        },
{
    let e = match Expense::parse(expense_tok) {
        Ok(e) => e,
        Err(err) => {
            return Err(err);
        },
    };
    let amount = match parse_amount(amount_tok) {
        Ok(a) => a,
        Err(err) => {
            return Err(err);
        },
    };
    Ok(e.fmt(amount, now))
}

/// Formatting is deterministic: the block is a function of the category, the
/// amount and the date alone, so two outputs for identical inputs are equal
/// character for character.
pub proof fn lemma_fmt_deterministic(
    e: Expense,
    amount: u32,
    now: Date,
    r1: Seq<char>,
    r2: Seq<char>,
)
    requires
        r1 == fmt_spec(e, amount, now),
        r2 == fmt_spec(e, amount, now),
    ensures
        r1 == r2,
{
}

/// Each token in the canonical category set parses to its matching category.
pub proof fn lemma_parse_category_canonical()
    ensures
        parse_cat("shufersal"@) == Some(Expense::Shufersal),
        parse_cat("keter"@) == Some(Expense::KeterHabasar),
        parse_cat("tal"@) == Some(Expense::TalTavlinim),
{
    reveal_strlit("shufersal");
    reveal_strlit("keter");
    reveal_strlit("tal");
    assert("shufersal"@.len() == 9);
    assert("keter"@.len() == 5);
    assert("tal"@.len() == 3);
}

/// Any token outside the canonical category set parses to no category.
pub proof fn lemma_parse_category_rejects(s: Seq<char>)
    requires
        s != "shufersal"@,
        s != "keter"@,
        s != "tal"@,
    ensures
        parse_cat(s) is None,
{
}

} // verus!
