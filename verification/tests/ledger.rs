use buy::args::get_ledger_file;
use buy::args::require_three;
use buy::args::LEDGER_VAR;
use buy::date::date_from_tm_fields;
use buy::date::today;
use buy::date::Date;
use buy::digits::parse_amount;
use buy::errors::BuyError;
use buy::expense::record_purchase;
use buy::expense::Expense;
use buy::guard::AppendGuard;

#[test]
fn test_no_ledger_file() {
    match get_ledger_file(None) {
        Err(BuyError::MissingEnvVar(var)) => assert_eq!(var, LEDGER_VAR),
        x => panic!("{:?}", x),
    }
}

#[test]
fn test_has_ledger_file() {
    let val = "foobarbazbin";
    assert_eq!(get_ledger_file(Some(String::from(val))).unwrap(), val);
}

#[test]
fn test_require_three() {
    assert_eq!(
        require_three(vec!["1", "2", "3"].into_iter().map(|s| String::from(s)).collect()).unwrap(),
        ("1".to_string(), "2".to_string(), "3".to_string())
    );
    match require_three(vec![] as Vec<String>) {
        Err(BuyError::InsufficientArgs(0)) => (),
        x => panic!("{:?}", x),
    }
    match require_three(vec!["1"].into_iter().map(|s| String::from(s)).collect()) {
        Err(BuyError::InsufficientArgs(1)) => (),
        x => panic!("{:?}", x),
    }
    match require_three(
        vec!["1", "2", "3", "4"]
            .into_iter()
            .map(|s| String::from(s))
            .collect(),
    ) {
        Err(BuyError::TooManyArgs(4)) => (),
        x => panic!("{:?}", x),
    }
}

#[test]
fn test_expense_parse() {
    assert_eq!(
        Expense::parse("shufersal".to_string()).unwrap(),
        Expense::Shufersal
    );
}

#[test]
fn test_fmt() {
    let tm = Date::new(1970, 1, 1);
    let s = Expense::KeterHabasar.fmt(100, tm);
    assert_eq!(s, "\n1970/01/01 Keter Habasar\n    expenses:food  ₪100\n    liability:credit card:fibi:shufersal\n");
}

#[test]
fn parse_all_canonical_categories() {
    assert_eq!(
        Expense::parse("shufersal".to_string()).unwrap(),
        Expense::Shufersal
    );
    assert_eq!(
        Expense::parse("keter".to_string()).unwrap(),
        Expense::KeterHabasar
    );
    assert_eq!(
        Expense::parse("tal".to_string()).unwrap(),
        Expense::TalTavlinim
    );
}

#[test]
fn parse_rejects_unknown_tokens() {
    for tok in ["", "Shufersal", "KETER", "groceries", "tal "] {
        match Expense::parse(tok.to_string()) {
            Err(BuyError::InvalidExpense(t)) => assert_eq!(t, tok),
            x => panic!("{:?}", x),
        }
    }
}

#[test]
fn parse_amount_accepts_decimal_integers() {
    assert_eq!(parse_amount("0".to_string()).unwrap(), 0);
    assert_eq!(parse_amount("100".to_string()).unwrap(), 100);
    assert_eq!(parse_amount("007".to_string()).unwrap(), 7);
    assert_eq!(parse_amount("4294967295".to_string()).unwrap(), u32::MAX);
}

#[test]
fn parse_amount_rejects_malformed_tokens() {
    for tok in ["", "12a", "+5", "-3", "1.5", "1 0", "4294967296", "₪7"] {
        match parse_amount(tok.to_string()) {
            Err(BuyError::InvalidAmount(t)) => assert_eq!(t, tok),
            x => panic!("{:?}", x),
        }
    }
}

#[test]
fn fmt_pads_month_and_day() {
    let s = Expense::Shufersal.fmt(7, Date::new(2024, 12, 31));
    assert_eq!(
        s,
        "\n2024/12/31 Shufersal\n    expenses:food  ₪7\n    liability:credit card:fibi:shufersal\n"
    );
    let s = Expense::TalTavlinim.fmt(25, Date::new(2003, 6, 4));
    assert_eq!(
        s,
        "\n2003/06/04 Tal Tavlinim\n    expenses:food  ₪25\n    liability:credit card:fibi:shufersal\n"
    );
}

#[test]
fn fmt_is_deterministic() {
    let a = Expense::KeterHabasar.fmt(100, Date::new(1970, 1, 1));
    let b = Expense::KeterHabasar.fmt(100, Date::new(1970, 1, 1));
    assert_eq!(a, b);
}

#[test]
fn category_accounts() {
    for e in [
        Expense::Shufersal,
        Expense::KeterHabasar,
        Expense::TalTavlinim,
    ] {
        assert_eq!(e.dest_account(), "expenses:food");
        assert_eq!(e.source_account(), "liability:credit card:fibi:shufersal");
    }
    assert_eq!(Expense::Shufersal.desc(), "Shufersal");
    assert_eq!(Expense::KeterHabasar.desc(), "Keter Habasar");
    assert_eq!(Expense::TalTavlinim.desc(), "Tal Tavlinim");
}

#[test]
fn record_purchase_round_trip() {
    let s = record_purchase("keter".to_string(), "100".to_string(), Date::new(1970, 1, 1)).unwrap();
    assert_eq!(s, "\n1970/01/01 Keter Habasar\n    expenses:food  ₪100\n    liability:credit card:fibi:shufersal\n");
}

#[test]
fn record_purchase_reports_the_failing_token() {
    match record_purchase("bogus".to_string(), "100".to_string(), Date::new(1970, 1, 1)) {
        Err(BuyError::InvalidExpense(t)) => assert_eq!(t, "bogus"),
        x => panic!("{:?}", x),
    }
    match record_purchase("tal".to_string(), "12a".to_string(), Date::new(1970, 1, 1)) {
        Err(BuyError::InvalidAmount(t)) => assert_eq!(t, "12a"),
        x => panic!("{:?}", x),
    }
}

#[test]
fn guard_excludes_second_append() {
    let mut guard = AppendGuard::new();
    assert!(guard.try_acquire().is_ok());
    match guard.try_acquire() {
        Err(BuyError::GuardBusy) => (),
        x => panic!("{:?}", x),
    }
    guard.release();
    assert!(guard.try_acquire().is_ok());
}

#[test]
fn date_from_tm_fields_converts_broken_down_time() {
    assert_eq!(date_from_tm_fields(70, 0, 1), Some(Date::new(1970, 1, 1)));
    assert_eq!(date_from_tm_fields(124, 11, 31), Some(Date::new(2024, 12, 31)));
    assert_eq!(date_from_tm_fields(-2000, 0, 1), None);
    assert_eq!(date_from_tm_fields(100, 12, 1), None);
    assert_eq!(date_from_tm_fields(100, 0, 0), None);
}

#[test]
fn today_is_a_calendar_date() {
    let d = today().unwrap();
    assert!((1..=12).contains(&d.month));
    assert!((1..=31).contains(&d.day));
    assert!(d.year >= 1970);
}
