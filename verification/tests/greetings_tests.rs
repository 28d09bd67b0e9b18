use fetchloop::digits::decimal_string;
use fetchloop::greetings::Greeter;

#[test]
fn first_greeting_counts_one() {
    let mut g = Greeter::new();
    assert_eq!(g.get_greetings(), "Hello from Rust!\n1x");
    assert_eq!(g.greet_count, 1);
}

#[test]
fn named_greeting_counts_on_its_own() {
    let mut g = Greeter::new();
    g.get_greetings();
    g.get_greetings();
    assert_eq!(g.say_hello("World"), "Hello, World!\n1x");
    assert_eq!(g.say_hello("World"), "Hello, World!\n2x");
    assert_eq!(g.greet_count, 2);
    assert_eq!(g.named_count, 2);
}

#[test]
fn counts_are_grouped_in_thousands() {
    let mut g = Greeter { greet_count: 999, named_count: 1234566 };
    assert_eq!(g.get_greetings(), "Hello from Rust!\n1,000x");
    assert_eq!(g.say_hello(""), "Hello, !\n1,234,567x");
}

#[test]
fn decimal_rendering_is_exact() {
    assert_eq!(decimal_string(0), "0");
    assert_eq!(decimal_string(7), "7");
    assert_eq!(decimal_string(10), "10");
    assert_eq!(decimal_string(90061), "90061");
    assert_eq!(decimal_string(u64::MAX), "18446744073709551615");
}
