use backup_store::{align_up, all_equal, argsort, clean, inverse_argsort, invert, IdAllocator};

#[test]
fn test_id_alloc() {
    let mut ida = IdAllocator::new(3, 5);
    assert_eq!(ida.allocate().unwrap(), 3);
    assert_eq!(ida.allocate().unwrap(), 4);
    assert_eq!(ida.allocate().unwrap(), 5);
    ida.free(4);
    assert_eq!(ida.allocate().unwrap(), 4);
    ida.free(5);
    ida.free(3);
    assert_eq!(ida.allocate().unwrap(), 5);
    assert_eq!(ida.allocate().unwrap(), 3);
    if let Some(id) = ida.allocate() {
        panic!("id allocator returned {id}, not expected id exhaustion error")
    }
}

#[test]
fn test_all_equal() {
    let empty: [i64; 0] = [];
    assert!(all_equal(&empty));
    assert!(all_equal(&[1]));
    assert!(all_equal(&[1, 1]));
    assert!(!all_equal(&[1, 2]));
}

#[test]
fn test_clean() {
    // These test cases are imported from the Go standard library.
    for (input, output) in &[
        // Already clean.
        ("", "."),
        ("abc", "abc"),
        ("abc/def", "abc/def"),
        ("a/b/c", "a/b/c"),
        (".", "."),
        ("..", ".."),
        ("../..", "../.."),
        ("../../abc", "../../abc"),
        ("/abc", "/abc"),
        ("/", "/"),
        // Remove trailing slash.
        ("abc/", "abc"),
        ("abc/def/", "abc/def"),
        ("a/b/c/", "a/b/c"),
        ("./", "."),
        ("../", ".."),
        ("../../", "../.."),
        ("/abc/", "/abc"),
        // Remove doubled slash.
        ("abc//def//ghi", "abc/def/ghi"),
        ("//abc", "/abc"),
        ("///abc", "/abc"),
        ("//abc//", "/abc"),
        ("abc//", "abc"),
        // Remove . elements.
        ("abc/./def", "abc/def"),
        ("/./abc/def", "/abc/def"),
        ("abc/.", "abc"),
        // Remove .. elements.
        ("abc/def/ghi/../jkl", "abc/def/jkl"),
        ("abc/def/../ghi/../jkl", "abc/jkl"),
        ("abc/def/..", "abc"),
        ("abc/def/../..", "."),
        ("/abc/def/../..", "/"),
        ("abc/def/../../..", ".."),
        ("/abc/def/../../..", "/"),
        ("abc/def/../../../ghi/jkl/../../../mno", "../../mno"),
        // Combinations.
        ("abc/./../def", "def"),
        ("abc//./../def", "def"),
        ("abc/../../././../def", "../../def"),
    ] {
        println!("clean({input}) = {output}");
        assert_eq!(clean(input.as_bytes()), output.as_bytes().to_vec());
    }
}

#[test]
fn align_up_rounds_to_multiples() {
    assert_eq!(align_up::<8>(0), 0);
    assert_eq!(align_up::<8>(5), 8);
    assert_eq!(align_up::<8>(8), 8);
    assert_eq!(align_up::<8>(9), 16);
    assert_eq!(align_up::<1>(7), 7);
    assert_eq!(align_up::<10>(101), 110);
}

#[test]
fn invert_swaps_positions_and_values() {
    let perm = vec![2usize, 0, 1];
    assert_eq!(invert(&perm), vec![(2, 0), (0, 1), (1, 2)]);
    assert_eq!(invert(&Vec::new()), Vec::new());
}

#[test]
fn argsort_sorts_stably() {
    assert_eq!(argsort(&vec![3i64, 1, 2]), vec![1, 2, 0]);
    // Equal keys keep their original order.
    assert_eq!(argsort(&vec![1i64, 1, 0]), vec![2, 0, 1]);
    assert_eq!(argsort(&Vec::new()), Vec::<usize>::new());
}

#[test]
fn inverse_argsort_undoes_argsort() {
    let data = vec![3i64, 1, 2];
    assert_eq!(inverse_argsort(&data), vec![2, 0, 1]);
    let a = argsort(&data);
    let inv = inverse_argsort(&data);
    for (i, &slot) in a.iter().enumerate() {
        assert_eq!(inv[slot], i);
    }
}

#[test]
fn id_allocator_reports_exhaustion_once_range_is_used() {
    let mut ida = IdAllocator::new(0, 0);
    assert_eq!(ida.allocate(), Some(0));
    assert_eq!(ida.allocate(), None);
    ida.free(0);
    assert_eq!(ida.allocate(), Some(0));
}

#[test]
fn gen_hands_out_sequential_ids() {
    let mut gen = backup_store::Gen::default();
    assert_eq!(gen.allocate_id(), 0);
    assert_eq!(gen.allocate_id(), 1);
    assert_eq!(gen.allocate_id(), 2);
}
