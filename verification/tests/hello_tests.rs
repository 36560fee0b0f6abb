use pq_sys::hello::{Hello, TestHello, TestTrait};

#[test]
fn hello_values() {
    assert_eq!(TestHello::new().v, 0);
    assert_eq!(TestHello::default().v, 123);
    assert_eq!(TestHello::default().say_hi(), "say_hi:123");
    let t: TestTrait<TestHello> = TestTrait::new();
    assert_eq!(t.hello.v, 123);
    assert_eq!(t.hello.say_hi(), "say_hi:123");
}
