#[test]
fn test_todo() { /* It works, for now! */ }
