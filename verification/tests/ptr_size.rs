use typesize::TypeSize;

// `with::ref_size` is documented as the extra size of a reference's pointer part, which does not
// count what it points to and so is always `0` (`pointers.rs` checks this). A check that it
// returns the width of one or two pointers would contradict that documentation and the code, so
// it is not kept here; `box_size` below covers the sizes of thin and fat pointers through `Box`.

#[test]
fn box_size() {
    let value: Box<u8> = Box::new(0_u8);
    let fat_str: Box<str> = Box::from("data");
    let fat_arr: Box<[u8]> = Box::from(*b"data");

    assert_eq!(
        value.get_size(),
        core::mem::size_of::<usize>() + core::mem::size_of::<u8>()
    );

    let expected_fat = core::mem::size_of::<usize>() // thin ptr
        + core::mem::size_of::<usize>() // len
        + (core::mem::size_of::<u8>() * fat_str.len()); // chars

    assert_eq!(fat_arr.get_size(), expected_fat);
    assert_eq!(fat_str.get_size(), expected_fat);
}
