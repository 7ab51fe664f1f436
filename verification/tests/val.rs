use lucet_runtime_internals::c_api::{
    lucet_alloc_limits, lucet_error, lucet_signal_behavior, lucet_state_tag,
    lucet_terminated_reason, lucet_trapcode, lucet_untyped_retval, lucet_val, lucet_val_type,
    state_tag, terminated_reason,
};
use lucet_runtime_internals::allocation::Limits;
use lucet_runtime_internals::error::Error;
use lucet_runtime_internals::instance::TerminationDetails;
use lucet_runtime_internals::signals::SignalBehavior;
use lucet_runtime_internals::state::State;
use lucet_runtime_internals::trapcode::TrapCode;
use lucet_runtime_internals::val::{RegVal, UntypedRetVal, Val, ValueType};

#[test]
fn value_types() {
    assert_eq!(Val::U8(1).value_type(), ValueType::I32);
    assert_eq!(Val::Bool(true).value_type(), ValueType::I32);
    assert_eq!(Val::GuestPtr(7).value_type(), ValueType::I32);
    assert_eq!(Val::U64(1).value_type(), ValueType::I64);
    assert_eq!(Val::CPtr(0x1000).value_type(), ValueType::I64);
    assert_eq!(Val::ISize(-1).value_type(), ValueType::I64);
    assert_eq!(Val::F32(1.5f32.to_bits()).value_type(), ValueType::F32);
    assert_eq!(Val::F64(1.5f64.to_bits()).value_type(), ValueType::F64);
}

#[test]
fn stack_representation() {
    assert_eq!(Val::U8(200).to_stack(), 200);
    assert_eq!(Val::I8(-1).to_stack(), u64::MAX);
    assert_eq!(Val::I32(-2).to_stack(), u64::MAX - 1);
    assert_eq!(Val::CInt(-2).to_stack(), u64::MAX - 1);
    assert_eq!(Val::Bool(true).to_stack(), 1);
    assert_eq!(Val::Bool(false).to_stack(), 0);
    assert_eq!(Val::F32(2.0f32.to_bits()).to_stack(), 2.0f32.to_bits() as u64);
    assert_eq!(Val::F64(2.5f64.to_bits()).to_stack(), 2.5f64.to_bits());
}

#[test]
fn register_representation() {
    match Val::I16(-3).to_reg() {
        RegVal::GpReg(x) => assert_eq!(x, (-3i64) as u64),
        RegVal::FpReg(_) => panic!("integer in an SSE register"),
    }
    let bits = 1.25f32.to_bits();
    match Val::F32(bits).to_reg() {
        RegVal::FpReg(x) => {
            let b = bits as u128;
            assert_eq!(x, b | (b << 32) | (b << 64) | (b << 96));
        }
        RegVal::GpReg(_) => panic!("float in a general-purpose register"),
    }
    let bits = 3.5f64.to_bits();
    match Val::F64(bits).to_reg() {
        RegVal::FpReg(x) => assert_eq!(x, (bits as u128) | ((bits as u128) << 64)),
        RegVal::GpReg(_) => panic!("float in a general-purpose register"),
    }
}

#[test]
fn untyped_retval_conversions() {
    let rv = UntypedRetVal::new(0xffff_ffff_ffff_fffe, 0);
    assert_eq!(u8::from(rv), 0xfe);
    assert_eq!(u16::from(rv), 0xfffe);
    assert_eq!(u32::from(rv), 0xffff_fffe);
    assert_eq!(u64::from(rv), 0xffff_ffff_ffff_fffe);
    assert_eq!(i8::from(rv), -2);
    assert_eq!(i16::from(rv), -2);
    assert_eq!(i32::from(rv), -2);
    assert_eq!(i64::from(rv), -2);
    assert!(bool::from(rv));
    assert!(!bool::from(UntypedRetVal::new(0, 0)));
    assert_eq!(rv.gp(), 0xffff_ffff_ffff_fffe);
}

#[test]
fn untyped_retval_float_lanes() {
    let f = 6.75f32.to_bits() as u128;
    let rv = UntypedRetVal::new(0, f | (f << 32));
    assert_eq!(f32::from_bits(rv.f32_bits()), 6.75f32);
    let d = (-0.5f64).to_bits() as u128;
    let rv = UntypedRetVal::new(0, d | (123u128 << 64));
    assert_eq!(f64::from_bits(rv.f64_bits()), -0.5f64);
    let zero = UntypedRetVal::default();
    assert_eq!(zero.gp(), 0);
    assert_eq!(zero.fp(), 0);
}

#[test]
fn scalars_into_vals() {
    assert!(matches!(Val::from(5u8), Val::U8(5)));
    assert!(matches!(Val::from(-5i64), Val::I64(-5)));
    assert!(matches!(Val::from(true), Val::Bool(true)));
    assert!(matches!(Val::from(9usize), Val::USize(9)));
}

#[test]
fn c_values_roundtrip() {
    let c = lucet_val::from(Val::I32(-7));
    assert_eq!(c.ty, lucet_val_type::I32);
    assert_eq!(c.inner_val, (-7i64) as u64);
    assert!(matches!(Val::from(c), Val::I32(-7)));

    let c = lucet_val::from(Val::CULong(99));
    assert_eq!(c.ty, lucet_val_type::U64);
    assert!(matches!(Val::from(c), Val::U64(99)));

    let c = lucet_val::from(Val::Bool(true));
    assert_eq!(c.inner_val, 1);
    assert!(matches!(Val::from(c), Val::Bool(true)));

    // narrow signed C values come back widened
    assert!(matches!(Val::from(lucet_val::from(Val::I8(-3))), Val::I16(-3)));
    assert!(matches!(Val::from(lucet_val::from(Val::I16(-300))), Val::I32(-300)));

    let bits = 1.5f64.to_bits();
    assert!(matches!(Val::from(lucet_val::from(Val::F64(bits))), Val::F64(b) if b == bits));
}

#[test]
fn c_error_codes() {
    assert_eq!(lucet_error::from(Error::RegionFull(3)), lucet_error::RegionFull);
    assert_eq!(lucet_error::from(Error::InvalidArgument("x")), lucet_error::InvalidArgument);
    assert_eq!(lucet_error::from(Error::InstanceNeedsStart), lucet_error::InvalidArgument);
    assert_eq!(lucet_error::from(Error::FuncNotFound(0, 1)), lucet_error::FuncNotFound);
    assert_eq!(
        lucet_error::from(Error::RuntimeTerminated(TerminationDetails::Remote)),
        lucet_error::RuntimeTerminated
    );
    assert_eq!(lucet_error::from(Error::Unsupported("y")), lucet_error::Unsupported);
}

#[test]
fn c_trapcodes_and_behaviors() {
    assert_eq!(lucet_trapcode::from(None), lucet_trapcode::Unknown);
    assert_eq!(
        lucet_trapcode::from(Some(TrapCode::HeapOutOfBounds)),
        lucet_trapcode::HeapOutOfBounds
    );
    assert_eq!(
        SignalBehavior::from(lucet_signal_behavior::Terminate),
        SignalBehavior::Terminate
    );
    assert_eq!(
        SignalBehavior::from(lucet_signal_behavior::Default),
        SignalBehavior::Default
    );
}

#[test]
fn c_states_and_termination_reasons() {
    assert_eq!(state_tag(&State::Ready), Some(lucet_state_tag::Returned));
    assert_eq!(
        state_tag(&State::Running { async_context: false }),
        Some(lucet_state_tag::Running)
    );
    assert_eq!(state_tag(&State::Terminated), Some(lucet_state_tag::Terminated));
    assert_eq!(state_tag(&State::NotStarted), None);
    assert_eq!(
        terminated_reason(&TerminationDetails::Signal),
        Some(lucet_terminated_reason::Signal)
    );
    assert_eq!(
        terminated_reason(&TerminationDetails::provide(1u8)),
        Some(lucet_terminated_reason::Provided)
    );
    assert_eq!(terminated_reason(&TerminationDetails::Remote), None);
}

#[test]
fn c_limits_roundtrip() {
    let l = Limits::default().with_stack_size(64 * 1024);
    let c = lucet_alloc_limits::from(l);
    assert_eq!(c.stack_size, 64 * 1024);
    let back = Limits::from(c);
    assert_eq!(back.stack_size, l.stack_size);
    assert_eq!(back.heap_memory_size, l.heap_memory_size);
    assert_eq!(back.heap_address_space_size, l.heap_address_space_size);
    assert_eq!(back.globals_size, l.globals_size);
    assert_eq!(back.hostcall_reservation, Limits::default().hostcall_reservation);
    assert_eq!(back.signal_stack_size, Limits::default().signal_stack_size);
}

#[test]
fn c_untyped_retval_bytes() {
    let rv = UntypedRetVal::new(0x0102_0304_0506_0708, 0x80 | (0x7fu128 << 120));
    let c = lucet_untyped_retval::from(rv);
    assert_eq!(c.gp, [8, 7, 6, 5, 4, 3, 2, 1]);
    assert_eq!(c.fp[0], -128);
    assert_eq!(c.fp[15], 0x7f);
    assert_eq!(&c.fp[1..15], &[0i8; 14]);
}
