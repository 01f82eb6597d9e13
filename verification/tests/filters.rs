use futures_stream_ext::dedup::filter_dedup_memo;
use futures_stream_ext::distinct::{
    filter_distinct_until_changed, filter_distinct_until_changed_err_result,
    filter_distinct_until_changed_ok_result, filter_map_distinct_until_changed,
};

#[test]
fn distinct_until_changed() {
    let input = [1, 1, 2, 1, 2, 2, 2, 3, 3];
    let expected_output = vec![1, 2, 1, 2, 3];
    let mut last_item = None;
    let mut actual_output = Vec::new();
    for next_item in &input {
        if filter_distinct_until_changed(&mut last_item, next_item) {
            actual_output.push(*next_item);
        }
    }
    assert_eq!(expected_output, actual_output);
}

#[test]
fn distinct_until_changed_map() {
    let input = [1, 1, 2, 1, 2, 2, 4, 5, 2, 3, 3, 7];
    let expected_output = vec![1, 2, 1, 2, 4, 2, 7];
    let map_fn = |item: &i32| item / 2;
    let mut last_value = None;
    let mut actual_output = Vec::new();
    for next_item in &input {
        if filter_map_distinct_until_changed(&map_fn, &mut last_value, next_item) {
            actual_output.push(*next_item);
        }
    }
    assert_eq!(expected_output, actual_output);
}

#[test]
fn distinct_until_changed_ok_result() {
    let input: [Result<i32, i32>; 9] = [
        Ok(1),
        Ok(1),
        Ok(2),
        Err(1),
        Ok(2),
        Err(2),
        Err(2),
        Ok(3),
        Ok(3),
    ];
    let expected_output = vec![Ok(1), Ok(2), Err(1), Ok(2), Err(2), Err(2), Ok(3)];
    let mut last_ok = None;
    let mut actual_output = Vec::new();
    for next_result in &input {
        if filter_distinct_until_changed_ok_result(&mut last_ok, next_result) {
            actual_output.push(*next_result);
        }
    }
    assert_eq!(expected_output, actual_output);
}

#[test]
fn distinct_until_changed_err_result() {
    let input: [Result<i32, i32>; 9] = [
        Err(1),
        Err(1),
        Err(2),
        Ok(1),
        Err(2),
        Ok(2),
        Ok(2),
        Err(3),
        Err(3),
    ];
    let expected_output = vec![Err(1), Err(2), Ok(1), Err(2), Ok(2), Ok(2), Err(3)];
    let mut last_err = None;
    let mut actual_output = Vec::new();
    for next_result in &input {
        if filter_distinct_until_changed_err_result(&mut last_err, next_result) {
            actual_output.push(*next_result);
        }
    }
    assert_eq!(expected_output, actual_output);
}

#[test]
fn dedup_stream() {
    let input = [1, 1, 2, 1, 2, 2, 2, 3, 3];
    let expected_output = vec![1, 2, 1, 2, 3];
    let mut last_memo: Option<i32> = None;
    let mut actual_output = Vec::new();
    for next_item in &input {
        if filter_dedup_memo(&mut last_memo, &None, Some(*next_item)) {
            actual_output.push(*next_item);
        }
    }
    assert_eq!(expected_output, actual_output);
}

#[test]
fn dedup_ok_result_stream() {
    let input: [Result<i32, i32>; 9] = [
        Ok(1),
        Ok(1),
        Ok(2),
        Err(1),
        Ok(2),
        Err(2),
        Err(2),
        Ok(3),
        Ok(3),
    ];
    let expected_output = vec![Ok(1), Ok(2), Err(1), Ok(2), Err(2), Err(2), Ok(3)];
    let mut last_memo: Option<i32> = None;
    let mut actual_output = Vec::new();
    for next_result in &input {
        let memo = match next_result {
            Ok(ok) => Some(*ok),
            Err(_) => None,
        };
        if filter_dedup_memo(&mut last_memo, &None, memo) {
            actual_output.push(*next_result);
        }
    }
    assert_eq!(expected_output, actual_output);
}

#[test]
fn dedup_err_result_stream() {
    let input: [Result<i32, i32>; 9] = [
        Err(1),
        Err(1),
        Err(2),
        Ok(1),
        Err(2),
        Ok(2),
        Ok(2),
        Err(3),
        Err(3),
    ];
    let expected_output = vec![Err(1), Err(2), Ok(1), Err(2), Ok(2), Ok(2), Err(3)];
    let mut last_memo: Option<i32> = None;
    let mut actual_output = Vec::new();
    for next_result in &input {
        let memo = match next_result {
            Err(err) => Some(*err),
            Ok(_) => None,
        };
        if filter_dedup_memo(&mut last_memo, &None, memo) {
            actual_output.push(*next_result);
        }
    }
    assert_eq!(expected_output, actual_output);
}
