use exec_stack::stack::{Frame, InstanceHandle, Label, Stack};
use exec_stack::value::{Trap, Value};

#[test]
fn stack_label() {
    let label1 = Label { n: 0, offset: 0 };
    let label2 = Label { n: 0, offset: 1 };
    let mut stack = Stack::new();
    stack.push_label(label1);
    stack.push_label(label2);
    assert_eq!(stack.pop_label(), Ok(Label { n: 0, offset: 1 }));
    assert_eq!(stack.pop_label(), Ok(Label { n: 0, offset: 0 }));

    assert!(stack.is_empty());
}

#[test]
fn stack_frame() {
    let frame1 = Frame {
        instance: InstanceHandle(0),
        local: vec![],
    };
    let frame2 = Frame {
        instance: InstanceHandle(0),
        local: vec![Value::I32(1), Value::F32(3.0f32.to_bits())],
    };
    let mut stack = Stack::new();
    stack.push_frame(frame1);
    stack.push_frame(frame2);

    assert_eq!(
        stack.pop_frame(),
        Ok(Frame {
            instance: InstanceHandle(0),
            local: vec![Value::I32(1), Value::F32(3.0f32.to_bits())],
        })
    );
    assert_eq!(
        stack.pop_frame(),
        Ok(Frame {
            instance: InstanceHandle(0),
            local: vec![],
        })
    );
    assert!(stack.is_empty());
}

#[test]
fn value_round_trip_every_variant() {
    let all = [
        Value::I32(-7),
        Value::I64(i64::MIN),
        Value::F32(1.5f32.to_bits()),
        Value::F64((-2.25f64).to_bits()),
        Value::NullRef,
        Value::FuncRef,
        Value::ExternRef,
    ];
    let mut stack = Stack::new();
    stack.push_value(9i64);
    for v in all {
        stack.push_value(v);
        assert_eq!(stack.values_len(), 2);
        assert_eq!(stack.pop_value::<Value>(), Ok(v));
        assert_eq!(stack.values_len(), 1);
    }
    assert_eq!(stack.pop_value::<i64>(), Ok(9));
}

#[test]
fn typed_round_trip() {
    let mut stack = Stack::new();
    stack.push_value(i32::MAX);
    assert_eq!(stack.pop_value::<i32>(), Ok(i32::MAX));
    stack.push_value(-1i64);
    assert_eq!(stack.pop_value::<i64>(), Ok(-1));
    assert!(stack.is_empty());
}

#[test]
fn wrong_variant_is_type_mismatch_and_kept() {
    let mut stack = Stack::new();
    stack.push_value(5i32);
    assert_eq!(stack.pop_value::<i64>(), Err(Trap::TypeMismatch));
    assert_eq!(stack.values_len(), 1);
    stack.push_value(Value::F64(0));
    assert_eq!(stack.pop_value::<i32>(), Err(Trap::TypeMismatch));
    assert_eq!(stack.pop_value::<Value>(), Ok(Value::F64(0)));
    assert_eq!(stack.pop_value::<i32>(), Ok(5));
}

#[test]
fn labels_pop_in_reverse_order() {
    let mut stack = Stack::new();
    for i in 0..5usize {
        stack.push_label(Label { n: i, offset: 10 * i });
    }
    for i in (0..5usize).rev() {
        assert_eq!(stack.pop_label(), Ok(Label { n: i, offset: 10 * i }));
    }
    assert_eq!(stack.labels_len(), 0);
}

#[test]
fn frames_pop_in_reverse_order() {
    let mut stack = Stack::new();
    for i in 0..4usize {
        stack.push_frame(Frame { instance: InstanceHandle(i), local: vec![Value::I64(i as i64)] });
    }
    for i in (0..4usize).rev() {
        assert_eq!(
            stack.pop_frame(),
            Ok(Frame { instance: InstanceHandle(i), local: vec![Value::I64(i as i64)] })
        );
    }
    assert!(stack.is_empty());
}

#[test]
fn th_label_peeks_without_removing() {
    let mut stack = Stack::new();
    stack.push_label(Label { n: 1, offset: 4 });
    stack.push_label(Label { n: 2, offset: 9 });
    assert_eq!(stack.th_label(0), Ok(Label { n: 2, offset: 9 }));
    assert_eq!(stack.th_label(0), Ok(Label { n: 2, offset: 9 }));
    assert_eq!(stack.th_label(1), Ok(Label { n: 1, offset: 4 }));
    assert_eq!(stack.labels_len(), 2);
    assert_eq!(stack.th_label(2), Err(Trap::StackUnderflow));
    assert_eq!(stack.th_label(usize::MAX), Err(Trap::StackUnderflow));
    assert_eq!(stack.labels_len(), 2);
}

#[test]
fn is_empty_tracks_all_three_sub_stacks() {
    let mut stack = Stack::new();
    assert!(stack.is_empty());
    assert_eq!((stack.values_len(), stack.labels_len(), stack.frames_len()), (0, 0, 0));
    stack.push_value(1i32);
    assert!(!stack.is_empty());
    stack.pop_value::<i32>().unwrap();
    stack.push_label(Label { n: 0, offset: 0 });
    assert!(!stack.is_empty());
    stack.pop_label().unwrap();
    stack.push_frame(Frame { instance: InstanceHandle(0), local: vec![] });
    assert!(!stack.is_empty());
    assert_eq!(stack.frames_len(), 1);
    stack.pop_frame().unwrap();
    assert!(stack.is_empty());
}

#[test]
fn params_come_back_as_returns() {
    let xs = vec![Value::I32(1), Value::I64(2), Value::NullRef];
    let mut stack = Stack::new();
    stack.set_params(xs.clone());
    assert_eq!(stack.values_len(), 3);
    assert_eq!(stack.get_returns(), xs);
    assert_eq!(stack.values_len(), 0);
    assert!(stack.is_empty());
}

#[test]
fn set_params_replaces_residual_operands() {
    let mut stack = Stack::new();
    stack.push_value(8i32);
    stack.push_value(9i32);
    stack.set_params(vec![Value::FuncRef]);
    assert_eq!(stack.get_returns(), vec![Value::FuncRef]);
    assert_eq!(stack.get_returns(), vec![]);
}

#[test]
fn empty_pops_underflow_without_change() {
    let mut stack = Stack::new();
    stack.push_label(Label { n: 0, offset: 3 });
    assert_eq!(stack.pop_value::<Value>(), Err(Trap::StackUnderflow));
    assert_eq!(stack.pop_frame(), Err(Trap::StackUnderflow));
    assert_eq!(stack.labels_len(), 1);
    assert_eq!(stack.pop_label(), Ok(Label { n: 0, offset: 3 }));
    assert_eq!(stack.pop_label(), Err(Trap::StackUnderflow));
    assert_eq!(stack.th_label(0), Err(Trap::StackUnderflow));
    assert!(stack.top_frame().is_err());
    assert!(stack.top_frame_mut().is_err());
    assert!(stack.is_empty());
}

#[test]
fn top_frame_mut_writes_locals() {
    let mut stack = Stack::new();
    stack.push_frame(Frame { instance: InstanceHandle(1), local: vec![Value::I32(0)] });
    stack.push_frame(Frame { instance: InstanceHandle(2), local: vec![Value::I32(0), Value::I64(0)] });
    stack.top_frame_mut().unwrap().local[1] = Value::I64(42);
    assert_eq!(stack.top_frame().unwrap().instance, InstanceHandle(2));
    assert_eq!(stack.top_frame().unwrap().local, vec![Value::I32(0), Value::I64(42)]);
    stack.pop_frame().unwrap();
    assert_eq!(stack.top_frame().unwrap().local, vec![Value::I32(0)]);
}

#[test]
fn default_stack_is_empty() {
    let stack = Stack::default();
    assert!(stack.is_empty());
    assert_eq!(stack, Stack::new());
}
