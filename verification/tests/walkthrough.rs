use ownership_demo::script::demo_script;

#[test]
fn full_script_produces_fixed_lines_in_order() {
    let lines = demo_script();
    let expected: Vec<&str> = vec![
        "Hello, world!",
        "both x = Sam and y = Sam in scope",
        "This is indeed what is happening, because integers are simple values with a known, fixed size, and these two 5 values are pushed onto the stack.",
        "y = Sam  while x is invalid",
        "We say x moved to y to mean that at y = x; the pointer, length and capacity for x were copied into y but not its content",
        "Expensive deep clone x = Sam and y = Sam.",
        "Sam is a string literal",
        "Sam is still valid",
        "Sam is a String",
        "y = Sam is what is valid here",
        "Length of Sam is 3",
        "creating a reference without owning is called borrowing",
        "Length of Sam is 3",
        "borrowing - use it but dont own it",
        "Strings and references can be mutable. Primitives like string literals are not",
        "hello and hello",
        "hello",
    ];
    assert_eq!(lines.len(), expected.len());
    for (line, want) in lines.iter().zip(expected.iter()) {
        assert_eq!(line, want);
    }
}

#[test]
fn full_script_is_deterministic() {
    let first = demo_script();
    let second = demo_script();
    assert_eq!(first, second);
}
