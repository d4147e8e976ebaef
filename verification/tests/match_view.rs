use buoyant::view::match_view::{Branch2, Branch3};

#[allow(dead_code)]
enum MyEnum {
    A,
    B,
}

#[allow(dead_code)]
enum Valued {
    A(u8),
    B(f32),
}

#[allow(dead_code)]
enum ThreeState {
    First,
    Second,
    Third,
}

#[test]
fn match_view() {
    let view = match 1 {
        0 => Branch2::V0(0),
        _ => Branch2::V1(1),
    };
    assert_eq!(view, Branch2::<_, u8>::V1(1));
}

#[test]
fn match_view_enum() {
    let view: Branch2<i32, i32> = match MyEnum::A {
        MyEnum::A => Branch2::V0(0),
        MyEnum::B => Branch2::V1(1),
    };
    assert_eq!(view, Branch2::V0(0));
}

#[test]
fn match_view_variable_binding_enum() {
    let view = match Valued::B(3.0) {
        Valued::A(x) => Branch2::V0(x),
        Valued::B(y) => Branch2::V1(y),
    };
    assert_eq!(view, Branch2::V1(3.0));
}

#[test]
fn match_view_three_branches() {
    let view: Branch3<i32, i32, i32> = match ThreeState::Second {
        ThreeState::First => Branch3::V0(1),
        ThreeState::Second => Branch3::V1(2),
        ThreeState::Third => Branch3::V2(3),
    };
    assert_eq!(view, Branch3::V1(2));
}
