use direct_decl::options::{max_array_elem_size_on_the_stack, Arg};
use direct_decl::ord_set::OrdSet;
use direct_decl::ptr::UnsafeOcamlPtr;

#[test]
fn arg_holds_its_value() {
    let mut a = Arg::new(String::from("root"));
    assert_eq!(a.get(), "root");
    a.get_mut().push_str("/www");
    assert_eq!(a.get(), "root/www");
}

#[test]
fn stack_array_bound_defaults_to_64() {
    assert_eq!(*max_array_elem_size_on_the_stack().get(), 64);
}

#[test]
fn pointer_keeps_its_address() {
    let p = UnsafeOcamlPtr::new(0x1000);
    assert_eq!(p.as_usize(), 0x1000);
}

#[test]
fn empty_set_builds() {
    let s: OrdSet<i32> = OrdSet::empty();
    assert!(format!("{:?}", s).contains("Empty"));
}
