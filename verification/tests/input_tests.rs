use lunar_descent::input::IoLayer;

#[test]
fn test_single() {
    let mut testio = IoLayer::test();
    testio.input.set_input_text("1,2");

    let result: (f32, f32) = testio.get_two_values("my prompt").unwrap();

    assert_eq!(testio.output.get_last_line(), "my prompt? ".to_string());
    assert_eq!(1.0, result.0);
    assert_eq!(2.0, result.1);
}

#[test]
fn single_value_from_first_field() {
    let mut testio = IoLayer::test();
    testio.input.set_input_text("42, 7");

    let result: Option<u32> = testio.get_single_value("count");

    assert_eq!(Some(42), result);
    assert_eq!(testio.output.get_last_line(), "count? ".to_string());
}

#[test]
fn malformed_line_asks_again() {
    let mut testio = IoLayer::test();
    testio.input.set_input_text("a");

    let result: Option<f32> = testio.get_single_value("my prompt");

    // the failed attempt wrote the re-enter notice, then the next attempt
    // re-prompted before finding the source ended
    assert_eq!(None, result);
    assert_eq!(testio.output.get_last_line(), "my prompt? ".to_string());
}

#[test]
fn ended_source_gives_none() {
    let mut testio = IoLayer::test();

    let result: Option<f32> = testio.get_single_value("my prompt");

    assert_eq!(None, result);
    assert_eq!(testio.output.get_last_line(), "my prompt? ".to_string());
}

#[test]
fn three_values_from_one_line() {
    let mut testio = IoLayer::test();
    testio.input.set_input_text("1, 2, 3");

    let result: (i32, i32, i32) = testio.get_three_values("p").unwrap();

    assert_eq!((1, 2, 3), result);
}

#[test]
fn four_values_from_one_line() {
    let mut testio = IoLayer::test();
    testio.input.set_input_text("1, 2, 3, 4");

    let result: (i32, i32, i32, i32) = testio.get_four_values("p").unwrap();

    assert_eq!((1, 2, 3, 4), result);
}

#[test]
fn short_line_gives_up_when_source_ends() {
    let mut testio = IoLayer::test();
    testio.input.set_input_text("1");

    let result: Option<(f32, f32)> = testio.get_two_values("my prompt");

    assert_eq!(None, result);
    assert_eq!(testio.output.get_last_line(), "my prompt? ".to_string());
}
