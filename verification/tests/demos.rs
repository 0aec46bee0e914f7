use bitfield::epilogue::S;
use bitfield::readonly::Task;
use bitfield::readonly::from_within_module;

#[test]
fn original_f_returns_sum_and_field_borrow() {
    let mut s = S::new(7);
    let a = 1;
    let (field, sum) = s.original_f(&a, 2);
    assert_eq!(sum, 3);
    assert_eq!(*field, 7);
    *field = 41;
    let (field2, sum2) = s.original_f(&a, 4);
    assert_eq!(sum2, 5);
    assert_eq!(*field2, 41);
}

#[test]
fn generated_f_matches_original_f() {
    let mut s1 = S::new(10);
    let mut s2 = S::new(10);
    let a = 20;
    let r1 = {
        let (field, sum) = s1.original_f(&a, 30);
        (*field, sum)
    };
    let r2 = {
        let (field, sum) = s2.generated_f(&a, 30);
        (*field, sum)
    };
    assert_eq!(r1, r2);
}

#[test]
fn generated_f_borrow_writes_through() {
    let mut s = S::new(0);
    let a = 5;
    let (field, sum) = s.generated_f(&a, 5);
    *field = sum;
    let (field2, _) = s.generated_f(&a, 0);
    assert_eq!(*field2, 10);
}

#[test]
fn task_counter_advances_only_from_within() {
    let mut task = Task::default();
    let before = task.read_only();
    assert_eq!(before.index, 0);
    from_within_module(&mut task);
    from_within_module(&mut task);
    let after = task.read_only();
    assert_eq!(after.index, 2);
}

#[test]
fn read_only_copy_is_detached() {
    let mut task = Task::default();
    let mut copy = task.read_only();
    copy.index = 99;
    from_within_module(&mut task);
    assert_eq!(task.read_only().index, 1);
    assert_eq!(copy.index, 99);
}
