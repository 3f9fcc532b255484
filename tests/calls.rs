use rustpush_nac::calls::{gather_args, plan_call, STOP_ADDR};
use rustpush_nac::EmulationFault;

#[test]
fn few_arguments_go_in_registers() {
    let c = plan_call(0x1000, &[1, 2, 3]).unwrap();
    assert_eq!(c.registers, vec![1, 2, 3]);
    assert_eq!(c.stack_words, vec![STOP_ADDR]);
    assert_eq!(c.stack_pointer, 0x1000 - 8);
}

#[test]
fn extra_arguments_go_on_the_stack_in_order() {
    let args = [1, 2, 3, 4, 5, 6, 7, 8];
    let c = plan_call(0x2000, &args).unwrap();
    assert_eq!(c.registers, vec![1, 2, 3, 4, 5, 6]);
    assert_eq!(c.stack_words, vec![STOP_ADDR, 7, 8]);
    assert_eq!(c.stack_pointer, 0x2000 - 24);
    let back = gather_args(8, &c.registers, &c.stack_words[1..]).unwrap();
    assert_eq!(back, args.to_vec());
}

#[test]
fn frame_below_zero_is_refused() {
    assert!(matches!(plan_call(8, &[0; 7]), Err(EmulationFault::UnmappedMemory)));
    assert!(plan_call(16, &[0; 7]).is_ok());
    assert!(matches!(plan_call(0, &[]), Err(EmulationFault::UnmappedMemory)));
}

#[test]
fn gathering_needs_enough_words() {
    assert_eq!(gather_args(2, &[5, 6, 7, 8, 9, 10], &[]), Ok(vec![5, 6]));
    assert_eq!(gather_args(7, &[1, 2, 3, 4, 5, 6], &[70, 80]), Ok(vec![1, 2, 3, 4, 5, 6, 70]));
    assert_eq!(gather_args(7, &[1, 2, 3, 4, 5, 6], &[]), Err(EmulationFault::InvalidHookArity));
    assert_eq!(gather_args(3, &[1, 2], &[]), Err(EmulationFault::InvalidHookArity));
    assert_eq!(gather_args(0, &[], &[]), Ok(vec![]));
}
