use snek::Error;
use snek::Snek;
use snek::WrapperBuilder;

#[test]
fn wrapper_resolves_every_declared_symbol() {
    let lib = Snek::load(0x5000, None).unwrap();
    let builder = WrapperBuilder::new(lib);
    assert_eq!(builder.library_handle(), 0x5000);
    let builder = builder.add_symbol(0x5100, None).unwrap();
    let builder = builder.add_symbol(0x5200, None).unwrap();
    let wrapper = builder.finish();
    assert_eq!(wrapper.symbol_count(), 2);
    assert_eq!(wrapper.symbol_at(0).address(), 0x5100);
    assert_eq!(wrapper.symbol_at(1).address(), 0x5200);
    let mut lib = wrapper.into_library();
    assert_eq!(lib.release(), Some(0x5000));
}

#[test]
fn wrapper_construction_fails_entirely_on_a_missing_symbol() {
    let lib = Snek::load(0x5000, None).unwrap();
    let builder = WrapperBuilder::new(lib);
    let builder = builder.add_symbol(0x5100, None).unwrap();
    match builder.add_symbol(0, Some(String::from("undefined symbol: absent"))) {
        Err((mut lib, Error::SymbolLoadError(m))) => {
            assert_eq!(m, "undefined symbol: absent");
            assert!(lib.is_live());
            assert_eq!(lib.release(), Some(0x5000));
            assert_eq!(lib.release(), None);
        }
        _ => panic!("a missing symbol must fail the whole construction"),
    }
}
