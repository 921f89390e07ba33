use arm64_inst::arm64::Arm64Arg;
use arm64_inst::ir::Type;
use arm64_inst::machinst::MachInstArg;
use arm64_inst::regs::RegClass;

#[test]
fn integers_and_booleans_use_general_purpose_registers() {
    assert_eq!(Arm64Arg::regclass_for_type(Type::I8), RegClass::GPR);
    assert_eq!(Arm64Arg::regclass_for_type(Type::I32), RegClass::GPR);
    assert_eq!(Arm64Arg::regclass_for_type(Type::I64), RegClass::GPR);
    assert_eq!(Arm64Arg::regclass_for_type(Type::B1), RegClass::GPR);
}

#[test]
fn floats_use_floating_point_registers() {
    assert_eq!(Arm64Arg::regclass_for_type(Type::F32), RegClass::FPR);
    assert_eq!(Arm64Arg::regclass_for_type(Type::F64), RegClass::FPR);
}

#[test]
fn every_type_has_a_register_class() {
    let expected = [
        (Type::B1, RegClass::GPR),
        (Type::I8, RegClass::GPR),
        (Type::I16, RegClass::GPR),
        (Type::I32, RegClass::GPR),
        (Type::I64, RegClass::GPR),
        (Type::F32, RegClass::FPR),
        (Type::F64, RegClass::FPR),
        (Type::I8X16, RegClass::FPR),
        (Type::I16X8, RegClass::FPR),
        (Type::I32X4, RegClass::FPR),
        (Type::I64X2, RegClass::FPR),
        (Type::F32X4, RegClass::FPR),
        (Type::F64X2, RegClass::FPR),
    ];
    for (ty, class) in expected {
        assert_eq!(Arm64Arg::regclass_for_type(ty), class, "{:?}", ty);
        assert_eq!(class == RegClass::GPR, ty.is_int() || ty.is_bool(), "{:?}", ty);
    }
}

#[test]
fn type_predicates() {
    assert!(Type::I8.is_int());
    assert!(Type::I16.is_int());
    assert!(Type::I32.is_int());
    assert!(Type::I64.is_int());
    assert!(!Type::B1.is_int());
    assert!(!Type::F32.is_int());
    assert!(!Type::F64.is_int());
    assert!(!Type::I32X4.is_int());
    assert!(!Type::I64X2.is_int());
    assert!(Type::B1.is_bool());
    assert!(!Type::I8.is_bool());
    assert!(!Type::I64.is_bool());
    assert!(!Type::F32.is_bool());
    assert!(!Type::I8X16.is_bool());
}
