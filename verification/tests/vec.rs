use split_spare::batch::CapacityExceeded;
use split_spare::vec::split_at_capacity;
use split_spare::SplitSpare;

#[test]
fn reserve_split_spare_works() {
    let mut vec = vec![1, 2, 3];

    let mut spare = vec.reserve_split_spare(3);

    assert_eq!(spare.initialized(), &[1, 2, 3]);

    let len = spare.initialized().len();
    let items: Vec<usize> = spare.initialized().iter().copied().map(|i| i + len).collect();
    spare.extend(items);

    assert_eq!(vec, &[1, 2, 3, 4, 5, 6]);
}

#[test]
fn reserve_split_spare_has_the_room_asked_for() {
    let mut vec = vec![1, 2, 3];
    let spare = vec.reserve_split_spare(3);
    assert_eq!(spare.len(), 3);
    assert!(spare.remaining() >= 3);
    assert_eq!(spare.capacity() - spare.len(), spare.remaining());
}

#[test]
fn reserve_then_exact_batch_keeps_the_capacity() {
    let mut vec = vec![10u8, 20];
    let mut spare = vec.reserve_split_spare(5);
    let capacity = spare.capacity();
    assert_eq!(spare.try_extend(vec![1, 2, 3, 4, 5]), Ok(()));
    assert_eq!(spare.len(), 7);
    assert_eq!(spare.capacity(), capacity);
    assert_eq!(vec, &[10, 20, 1, 2, 3, 4, 5]);
    assert_eq!(vec.capacity(), capacity);
}

#[test]
fn split_spare_of_empty_vec_has_no_slot() {
    let mut vec: Vec<i32> = Vec::new();

    let mut spare = vec.split_spare();

    assert_eq!(spare.initialized(), &[] as &[i32]);
    assert_eq!(spare.remaining(), 0);
    assert_eq!(spare.try_extend(vec![1, 2, 3]), Err(CapacityExceeded));
    assert_eq!(spare.len(), 0);
    assert!(vec.is_empty());
}

#[test]
fn split_spare_round_trip() {
    let mut vec: Vec<u32> = Vec::with_capacity(8);
    vec.extend_from_slice(&[7, 8, 9]);
    let capacity = vec.capacity();

    let spare = vec.split_spare();

    assert_eq!(spare.initialized(), &[7, 8, 9]);
    assert_eq!(spare.len(), 3);
    assert_eq!(spare.capacity(), capacity);
    assert_eq!(spare.remaining(), capacity - 3);
    assert_eq!(vec, &[7, 8, 9]);
}

#[test]
fn split_at_capacity_counts_the_free_slots() {
    let mut vec = vec!['a', 'b'];
    let spare = split_at_capacity(&mut vec, 5);
    assert_eq!(spare.initialized(), &['a', 'b']);
    assert_eq!(spare.capacity(), 5);
    assert_eq!(spare.remaining(), 3);

    let mut full = vec!['a', 'b'];
    let spare = split_at_capacity(&mut full, 2);
    assert_eq!(spare.remaining(), 0);
}

#[test]
fn push_commits_item_by_item() {
    let mut vec = vec![1, 2];
    let mut spare = split_at_capacity(&mut vec, 4);
    spare.push(3);
    assert_eq!(spare.len(), 3);
    assert_eq!(spare.remaining(), 1);
    spare.push(4);
    assert_eq!(spare.len(), 4);
    assert_eq!(spare.remaining(), 0);
    assert_eq!(spare.initialized(), &[1, 2]);
    assert_eq!(vec, &[1, 2, 3, 4]);
}

#[test]
fn try_push_reports_a_full_array() {
    let mut vec = vec![1];
    let mut spare = split_at_capacity(&mut vec, 2);
    assert_eq!(spare.try_push(2), Ok(()));
    assert_eq!(spare.try_push(3), Err(CapacityExceeded));
    assert_eq!(spare.len(), 2);
    assert_eq!(vec, &[1, 2]);
}

#[test]
fn extend_commits_in_order() {
    let mut vec = vec![1, 2];
    let mut spare = split_at_capacity(&mut vec, 6);
    spare.extend(vec![3, 4]);
    spare.extend(Vec::new());
    spare.extend(vec![5]);
    assert_eq!(spare.len(), 5);
    assert_eq!(spare.remaining(), 1);
    assert_eq!(vec, &[1, 2, 3, 4, 5]);
}

#[test]
fn extend_is_push_once_per_item() {
    let mut pushed = vec![0];
    let mut spare = split_at_capacity(&mut pushed, 4);
    spare.push(1);
    spare.push(2);
    spare.push(3);

    let mut extended = vec![0];
    let mut spare = split_at_capacity(&mut extended, 4);
    spare.extend(vec![1, 2, 3]);

    assert_eq!(pushed, extended);
}

#[test]
fn try_extend_one_too_many_fills_to_capacity() {
    let mut vec = vec![1, 2];
    let mut spare = split_at_capacity(&mut vec, 5);
    assert_eq!(spare.try_extend(vec![3, 4, 5, 6]), Err(CapacityExceeded));
    assert_eq!(spare.len(), 5);
    assert_eq!(spare.remaining(), 0);
    assert_eq!(vec, &[1, 2, 3, 4, 5]);
}

#[test]
fn try_extend_that_fits_is_ok() {
    let mut vec = vec![1, 2];
    let mut spare = split_at_capacity(&mut vec, 5);
    assert_eq!(spare.try_extend(vec![3, 4, 5]), Ok(()));
    assert_eq!(spare.try_extend(Vec::new()), Ok(()));
    assert_eq!(vec, &[1, 2, 3, 4, 5]);
}

#[test]
fn initialized_mut_changes_elements_in_place() {
    let mut vec = vec![1, 2, 3];
    let mut spare = vec.reserve_split_spare(1);
    spare.push(4);
    for element in spare.initialized_mut() {
        *element *= 10;
    }
    assert_eq!(spare.initialized(), &[10, 20, 30]);
    assert_eq!(vec, &[10, 20, 30, 4]);
}

#[test]
fn zero_size_elements_split_and_push() {
    let mut vec = vec![(), (), ()];
    let mut spare = vec.split_spare();
    assert_eq!(spare.initialized(), &[(), (), ()]);
    assert_eq!(spare.capacity(), usize::MAX);
    spare.push(());
    spare.extend(vec![(), ()]);
    assert_eq!(spare.len(), 6);
    assert_eq!(vec.len(), 6);
}

#[test]
fn capacity_exceeded_message() {
    assert_eq!(
        CapacityExceeded.message(),
        "Insufficient capacity reserved to write all elements!"
    );
}

#[test]
fn owned_items_move_into_the_array() {
    let mut vec = vec![String::from("a")];
    let mut spare = vec.reserve_split_spare(2);
    spare.push(String::from("b"));
    assert_eq!(spare.try_extend(vec![String::from("c")]), Ok(()));
    spare.initialized_mut()[0].push('!');
    assert_eq!(vec, &["a!", "b", "c"]);
}
