use lessons::borrowing::{emphasize, first_word, longest, string_chars_len, sum, zero_out};
use lessons::closures::{add, fib};
use lessons::collections::{longest_equal_run_functional, longest_equal_run_imperative, mode};
use lessons::guessing::{
    is_over, judge, judge_line, message, secret_number, Verdict, SECRET_HIGH, SECRET_LOW,
};
use lessons::expressions::{break_with_value, if_expression, nested_if};
use lessons::modularity::{my_add, Foo};
use lessons::polymorphism::{
    smallest, smallest_char, smallest_display, smallest_general2, smallest_i32, smallest_where,
    MyStruct,
};
use lessons::traits::{Animal, Cow, Named, Sheep};

#[test]
fn modularity_add_and_foo() {
    assert_eq!(my_add(4, 5), 9);
    assert_eq!(my_add(-7, 3), -4);
    let mut foo = Foo::new(3);
    assert_eq!(foo.get_x(), 3);
    foo.set_x(-11);
    assert_eq!(foo.get_x(), -11);
}

#[test]
fn smallest_variants() {
    assert_eq!(smallest_i32(1, 2), 1);
    assert_eq!(smallest_i32(5, -2), -2);
    assert_eq!(smallest_char('a', 'b'), 'a');
    assert_eq!(smallest_char('z', 'c'), 'c');
    assert_eq!(smallest::<i32>(1, 3), 1);
    assert_eq!(smallest('a', 'c'), 'a');
    assert_eq!(smallest(4u64, 4u64), 4);
    assert_eq!(smallest_where(9, 2), 2);
    assert_eq!(smallest_display("pear", "apple"), "apple");
}

#[test]
fn smallest_general_picks_minimum() {
    assert_eq!(smallest_general2(vec![3, 1, 2]), Some(1));
    assert_eq!(smallest_general2(vec![7]), Some(7));
    assert_eq!(smallest_general2(Vec::<i32>::new()), None);
    assert_eq!(smallest_general2(vec![4, -9, 8, -9, 0]), Some(-9));
}

#[test]
fn my_struct_constructors() {
    assert_eq!(MyStruct::new(42).value, 42);
    let d: MyStruct<u32> = MyStruct::default();
    assert_eq!(d.value, 0);
}

#[test]
fn longest_equal_runs() {
    let x = vec![1, 2, 3, 4, 5, 6];
    let y = vec![1, 2, 0, 4, 5, 6];
    assert_eq!(longest_equal_run_imperative(x.clone(), y.clone()), 3);
    assert_eq!(longest_equal_run_functional(x, y), 3);
    assert_eq!(longest_equal_run_imperative(vec![], vec![]), 0);
    assert_eq!(longest_equal_run_imperative(vec![1, 2], vec![3, 4, 5]), 0);
    assert_eq!(longest_equal_run_imperative(vec![1, 1], vec![1, 1, 9]), 2);
    assert_eq!(longest_equal_run_functional(vec![1, 1, 1, 1], vec![1, 1]), 2);
    assert_eq!(longest_equal_run_functional(vec![0, 9, 9], vec![0, 9, 9, 9]), 3);
}

#[test]
fn mode_of_vectors() {
    assert_eq!(mode(vec![]), None);
    assert_eq!(mode(vec![4]), Some(4));
    assert_eq!(mode(vec![1, 2, 2, 3, 2, 1]), Some(2));
    let tie = mode(vec![5, 6, 5, 6]).unwrap();
    assert!(tie == 5 || tie == 6);
}

#[test]
fn expression_values() {
    assert_eq!(if_expression(true), 1);
    assert_eq!(if_expression(false), 2);
    assert_eq!(nested_if(), 2);
    assert_eq!(break_with_value(), 20);
}

#[test]
fn function_pointer_add_and_fibonacci() {
    let f: fn(i32, i32) -> i32 = add;
    assert_eq!(f(1, 2), 3);
    let mut it = fib();
    let mut first = Vec::new();
    for _ in 0..10 {
        first.push(it.next().unwrap());
    }
    assert_eq!(first, vec![1, 1, 2, 3, 5, 8, 13, 21, 34, 55]);
}

#[test]
fn borrowing_helpers() {
    assert_eq!(string_chars_len(&"foo".to_string()), 3);
    assert_eq!(string_chars_len(&"h\u{e9}llo".to_string()), 5);
    assert_eq!(sum(&[1, 2, 3, 4, 5]), 15);
    assert_eq!(sum(&[]), 0);
    let mut x = [1, 2, 3, 4, 5];
    zero_out(&mut x[1..3]);
    assert_eq!(x, [1, 0, 0, 4, 5]);
    assert_eq!(longest("abcd", "ah"), "abcd");
    assert_eq!(longest("ab", "cd"), "cd");
}

#[test]
fn animals_speak_and_greet() {
    let shaun = Sheep { name: String::from("Shaun"), age: 4, at_party: true };
    let betsie = Cow { name: String::from("Betsie"), age: 6, angry: false };
    assert_eq!(shaun.name(), "Shaun");
    assert_eq!(shaun.age(), 4);
    assert_eq!(betsie.age(), 6);
    assert_eq!(shaun.speak(), "Ba tss Ba tss Ba tss");
    assert_eq!(betsie.speak(), "moo");
    assert_eq!(shaun.say_hello_to(&betsie), "how's the baAaArty, Betsie?");
    assert_eq!(betsie.say_hello_to(&shaun), "moouwu, Shaun");
    let alex = Sheep { name: String::from("Alex"), age: 3, at_party: false };
    let angry = Cow { name: String::from("Bull"), age: 9, angry: true };
    assert_eq!(alex.speak(), "baAaAaA");
    assert_eq!(angry.speak(), "MOOOOO");
    assert_eq!(alex.say_hello_to(&angry), "baAaA to you, Bull");
    assert_eq!(angry.say_hello_to(&alex), "MOOOOO you Alex");
}

#[test]
fn guessing_verdicts_and_secret_range() {
    for _ in 0..200 {
        let s = secret_number();
        assert!(SECRET_LOW <= s && s <= SECRET_HIGH);
    }
    assert_eq!(judge(10, 50), Verdict::TooSmall);
    assert_eq!(judge(90, 50), Verdict::TooBig);
    assert_eq!(judge(50, 50), Verdict::Win);
    assert_eq!(judge_line("  42\n", 50), Some(Verdict::TooSmall));
    assert_eq!(judge_line("77\r\n", 50), Some(Verdict::TooBig));
    assert_eq!(judge_line("-5\n", -5), Some(Verdict::Win));
    assert_eq!(judge_line("forty\n", 50), None);
    assert_eq!(judge_line("\n", 50), None);
    assert!(is_over(Verdict::Win));
    assert!(!is_over(Verdict::TooBig));
    assert_eq!(message(Verdict::TooSmall), "Too small!");
    assert_eq!(message(Verdict::TooBig), "Too big!");
    assert_eq!(message(Verdict::Win), "You win!");
}

#[test]
fn first_word_and_emphasize() {
    assert_eq!(first_word("hello world"), "hello");
    assert_eq!(first_word("single"), "single");
    assert_eq!(first_word(""), "");
    assert_eq!(first_word(" lead"), "");
    assert_eq!(first_word("caf\u{e9} au lait"), "caf\u{e9}");
    let mut s = String::from("foo");
    emphasize(&mut s);
    assert_eq!(s, "FOO!!!");
    let mut t = String::from("h\u{e9}llo Wz9");
    emphasize(&mut t);
    assert_eq!(t, "H\u{e9}LLO WZ9!!!");
}
