use synthonyx_kit::primitives::{
    ConstBool, ConstU128, ConstU16, ConstU32, ConstU64, ConstU8, ConstUsize,
};
use synthonyx_kit::traits::get::Get;

pub struct S;

impl Get<String> for S {
    fn get() -> String {
        "Hello".into()
    }
}

#[test]
fn const_getters_works() {
    assert_eq!(ConstU8::<42>::get(), 42);
    assert_eq!(ConstU16::<42>::get(), 42);
    assert_eq!(ConstU32::<42>::get(), 42);
    assert_eq!(ConstU64::<42>::get(), 42);
    assert_eq!(ConstU128::<42>::get(), 42);
    assert_eq!(ConstUsize::<42>::get(), 42);

    assert_eq!(ConstBool::<true>::get(), true);
}

#[test]
fn param_getter_works() {
    assert_eq!(S::get(), "Hello".to_string());
}

#[test]
fn const_getters_at_the_bounds() {
    assert_eq!(ConstU8::<0>::get(), 0);
    assert_eq!(ConstU8::<255>::get(), u8::MAX);
    assert_eq!(ConstU64::<18446744073709551615>::get(), u64::MAX);
    assert_eq!(
        ConstU128::<340282366920938463463374607431768211455>::get(),
        u128::MAX
    );
    assert_eq!(ConstBool::<false>::get(), false);
}

#[test]
fn unit_provides_the_default_value() {
    assert_eq!(<() as Get<u32>>::get(), 0);
    assert_eq!(<() as Get<bool>>::get(), false);
    assert_eq!(<() as Get<String>>::get(), String::new());
    assert_eq!(<() as Get<Option<u8>>>::get(), None);
}
