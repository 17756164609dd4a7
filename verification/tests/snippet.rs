use type_probe::decimal::decimal_string;
use type_probe::entry::age_plus_one;
use type_probe::entry::render_line;
use type_probe::entry::run;
use type_probe::probe::o_type;

#[test]
fn entry_line_is_thirty_kevin() {
    let r = run();
    assert_eq!(r.line, "30 Kevin\n");
}

#[test]
fn entry_bindings() {
    let r = run();
    assert_eq!(r.name, "Kevin");
    assert_eq!(r.age, 30);
    assert_eq!(r.age_plus_one, 31);
    assert!(r.type_of_name.len() > 0);
}

#[test]
fn age_plus_one_values() {
    assert_eq!(age_plus_one(30), 31);
    assert_eq!(age_plus_one(-1), 0);
    assert_eq!(age_plus_one(i32::MAX - 1), i32::MAX);
}

#[test]
fn probe_result_nonempty() {
    assert!(o_type(&"Kevin").len() > 0);
    assert!(o_type(&String::from("x")).len() > 0);
    assert!(o_type(&5i32).len() > 0);
}

#[test]
fn probe_deterministic_per_type() {
    assert_eq!(o_type(&"a"), o_type(&"another"));
    assert_eq!(o_type(&String::new()), o_type(&String::from("b")));
    assert_eq!(o_type(&1i32), o_type(&-9i32));
}

#[test]
fn probe_labels() {
    assert_eq!(o_type(&"Kevin"), "&str");
    assert_eq!(o_type(&7i32), "i32");
    assert_eq!(o_type(&String::from("s")), "String");
}

#[test]
fn decimal_values() {
    assert_eq!(decimal_string(0), "0");
    assert_eq!(decimal_string(30), "30");
    assert_eq!(decimal_string(-7), "-7");
    assert_eq!(decimal_string(100), "100");
    assert_eq!(decimal_string(i32::MAX), "2147483647");
    assert_eq!(decimal_string(i32::MIN), "-2147483648");
}

#[test]
fn render_line_values() {
    assert_eq!(render_line(30, "Kevin"), "30 Kevin\n");
    assert_eq!(render_line(-5, ""), "-5 \n");
    assert_eq!(render_line(0, "x y"), "0 x y\n");
}
