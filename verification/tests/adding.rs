fn consume_once<F: FnOnce(i32) -> i32>(f: F, x: i32) -> i32 {
    f(x)
}

#[test]
fn it_works() {
    let result = linked_lists::add(2, 2);
    assert_eq!(result, 4);
    let take_ownership = |y| {
        println!("Taking ownership of {}", y);
        y * 2
    };
    let _result = consume_once(take_ownership, 3);
}
