use meth::Vec;

#[test]
fn forward_iteration_yields_elements_in_order() {
    let vec = Vec::from_array([1_u32, 2, 3]);
    let mut it = vec.iter();
    assert_eq!(it.len(), 3);
    assert_eq!(it.next(), Some(&1));
    assert_eq!(it.next(), Some(&2));
    assert_eq!(it.len(), 1);
    assert_eq!(it.next(), Some(&3));
    assert_eq!(it.next(), None);
    assert_eq!(it.len(), 0);
}

#[test]
fn nth_skips_ahead() {
    let vec = Vec::from_array([10_u32, 20, 30, 40, 50]);
    let mut it = vec.iter();
    assert_eq!(it.nth(2), Some(&30));
    assert_eq!(it.next(), Some(&40));
    assert_eq!(it.nth(9), None);
}

#[test]
fn count_reports_the_remaining_elements() {
    let vec = Vec::from_array([1_u32, 2, 3, 4]);
    let mut it = vec.iter();
    it.next();
    assert_eq!(it.count(), 3);
}

#[test]
fn backward_iteration_yields_elements_last_to_first() {
    let vec = Vec::from_array([1_u32, 2, 3]);
    let mut it = vec.iter();
    assert_eq!(it.next_back(), Some(&3));
    assert_eq!(it.next_back(), Some(&2));
    assert_eq!(it.next_back(), Some(&1));
    assert_eq!(it.next_back(), None);
    assert_eq!(it.next_back(), None);
}

#[test]
fn nth_back_skips_backward() {
    let vec = Vec::from_array([10_u32, 20, 30, 40, 50]);
    let mut it = vec.iter();
    assert_eq!(it.nth_back(1), Some(&40));
    assert_eq!(it.nth_back(0), Some(&30));
    assert_eq!(it.nth_back(9), None);
}

#[test]
fn forward_and_backward_cursors_are_independent() {
    let vec = Vec::from_array([1_u32, 2, 3]);
    let mut it = vec.iter();
    assert_eq!(it.next(), Some(&1));
    assert_eq!(it.next_back(), Some(&3));
    assert_eq!(it.next_back(), Some(&2));
    assert_eq!(it.next(), Some(&2));
}

#[test]
fn mutable_iteration_writes_through() {
    let mut vec = Vec::from_array([1_u32, 2, 3]);
    {
        let mut it = vec.iter_mut();
        while let Some(x) = it.next() {
            *x += 10;
        }
    }
    assert_eq!(vec.to_array(), [11, 12, 13]);
}

#[test]
fn mutable_backward_iteration_yields_the_last_element_first() {
    let mut vec = Vec::from_array([1_u32, 2, 3]);
    {
        let mut it = vec.iter_mut();
        assert_eq!(it.len(), 3);
        if let Some(x) = it.next_back() {
            *x = 30;
        }
        if let Some(x) = it.next_back() {
            *x = 20;
        }
        assert_eq!(it.nth(0), Some(&mut 1));
    }
    assert_eq!(vec.to_array(), [1, 20, 30]);
}
