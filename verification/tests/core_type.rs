use js_option::JsOption;
use std::collections::hash_map::DefaultHasher;
use std::hash::{Hash, Hasher};

#[test]
fn from_option_reads_none_as_null() {
    let v = JsOption::<i32>::from_option(None);
    assert!(v.is_null());
    assert!(!v.is_some());
    assert!(!v.is_undefined());
}

#[test]
fn from_option_reads_some_as_present() {
    let v = JsOption::from_option(Some(3));
    assert_eq!(v, JsOption::Present(3));
}

#[test]
fn from_implicit_option_reads_none_as_undefined() {
    let v = JsOption::<i32>::from_implicit_option(None);
    assert!(v.is_undefined());
}

#[test]
fn from_implicit_option_reads_some_as_present() {
    let v = JsOption::from_implicit_option(Some("x".to_string()));
    assert_eq!(v, JsOption::Present("x".to_string()));
}

#[test]
fn into_option_collapses_both_absences() {
    assert_eq!(JsOption::Present(7).into_option(), Some(7));
    assert_eq!(JsOption::<i32>::Null.into_option(), None);
    assert_eq!(JsOption::<i32>::Undefined.into_option(), None);
}

#[test]
fn option_round_trip_after_explicit_reading() {
    for o in [None, Some(4)] {
        assert_eq!(JsOption::from_option(o).into_option(), o);
        assert_eq!(JsOption::from_implicit_option(o).into_option(), o);
    }
}

#[test]
fn nested_option_is_lossless_for_all_three_variants() {
    let all = [JsOption::Present(1), JsOption::Null, JsOption::Undefined];
    for v in all {
        let nested = v.into_nested_option();
        let back = match nested {
            Some(Some(x)) => JsOption::Present(x),
            Some(None) => JsOption::Null,
            None => JsOption::Undefined,
        };
        assert_eq!(back, v);
    }
    assert_eq!(JsOption::Present(1).into_nested_option(), Some(Some(1)));
    assert_eq!(JsOption::<i32>::Null.into_nested_option(), Some(None));
    assert_eq!(JsOption::<i32>::Undefined.into_nested_option(), None);
}

#[test]
fn exactly_one_state_query_holds() {
    let all = [JsOption::Present(1), JsOption::Null, JsOption::Undefined];
    for v in all {
        let mut count = 0;
        if v.is_some() {
            count += 1;
        }
        if v.is_null() {
            count += 1;
        }
        if v.is_undefined() {
            count += 1;
        }
        assert_eq!(count, 1);
    }
}

#[test]
fn default_is_undefined() {
    let v: JsOption<String> = Default::default();
    assert!(v.is_undefined());
}

#[test]
fn unwrap_returns_the_present_value() {
    assert_eq!(JsOption::Present(41).unwrap(), 41);
}

#[test]
fn unwrap_or_uses_default_only_when_absent() {
    assert_eq!(JsOption::Present(1).unwrap_or(9), 1);
    assert_eq!(JsOption::Null.unwrap_or(9), 9);
    assert_eq!(JsOption::Undefined.unwrap_or(9), 9);
}

#[test]
fn unwrap_or_else_calls_producer_only_when_absent() {
    let mut calls = 0;
    let got = JsOption::Present(1).unwrap_or_else(|| {
        calls += 1;
        9
    });
    assert_eq!(got, 1);
    assert_eq!(calls, 0);

    let got = JsOption::<i32>::Null.unwrap_or_else(|| {
        calls += 1;
        9
    });
    assert_eq!(got, 9);
    assert_eq!(calls, 1);
}

#[test]
fn unwrap_or_default_uses_the_payload_default() {
    assert_eq!(JsOption::Present(5u32).unwrap_or_default(), 5);
    assert_eq!(JsOption::<u32>::Null.unwrap_or_default(), 0);
    assert_eq!(JsOption::<String>::Undefined.unwrap_or_default(), String::new());
}

#[test]
fn map_applies_only_to_present() {
    let mut calls = 0;
    let mapped = JsOption::Present(2).map(|x| {
        calls += 1;
        x * 10
    });
    assert_eq!(mapped, JsOption::Present(20));
    assert_eq!(calls, 1);

    let mapped = JsOption::<i32>::Null.map(|x| {
        calls += 1;
        x * 10
    });
    assert_eq!(mapped, JsOption::Null);
    assert_eq!(calls, 1);

    let mapped = JsOption::<i32>::Undefined.map(|x| {
        calls += 1;
        x * 10
    });
    assert_eq!(mapped, JsOption::Undefined);
    assert_eq!(calls, 1);
}

#[test]
fn as_ref_borrows_without_consuming() {
    let v = JsOption::Present("hi".to_string());
    assert_eq!(v.as_ref(), JsOption::Present(&"hi".to_string()));
    assert!(v.is_some());
    assert_eq!(JsOption::<i32>::Null.as_ref(), JsOption::Null);
    assert_eq!(JsOption::<i32>::Undefined.as_ref(), JsOption::Undefined);
}

#[test]
fn as_mut_lets_the_payload_be_replaced_in_place() {
    let mut v = JsOption::Present(1);
    if let JsOption::Present(p) = v.as_mut() {
        *p = 8;
    }
    assert_eq!(v, JsOption::Present(8));
    assert_eq!(JsOption::<i32>::Null.as_mut(), JsOption::Null);
    assert_eq!(JsOption::<i32>::Undefined.as_mut(), JsOption::Undefined);
}

#[test]
fn as_deref_borrows_through_the_payload() {
    let v = JsOption::Present("hello".to_string());
    assert_eq!(v.as_deref(), JsOption::Present("hello"));
    assert_eq!(JsOption::<String>::Null.as_deref(), JsOption::Null);
    assert_eq!(JsOption::<String>::Undefined.as_deref(), JsOption::Undefined);
}

#[test]
fn as_deref_mut_borrows_mutably_through_the_payload() {
    let mut v = JsOption::Present(Box::new(2));
    if let JsOption::Present(p) = v.as_deref_mut() {
        *p = 6;
    }
    assert_eq!(v, JsOption::Present(Box::new(6)));
    assert_eq!(JsOption::<Box<i32>>::Undefined.as_deref_mut(), JsOption::Undefined);
}

#[test]
fn ordering_puts_present_before_null_before_undefined() {
    assert!(JsOption::Present(1) < JsOption::Null);
    assert!(JsOption::Null < JsOption::<i32>::Undefined);
    assert!(JsOption::Present(1) < JsOption::<i32>::Undefined);
    assert!(JsOption::Present(1) < JsOption::Present(2));
}

#[test]
fn equal_values_hash_identically() {
    let hash_of = |v: &JsOption<i32>| {
        let mut h = DefaultHasher::new();
        v.hash(&mut h);
        h.finish()
    };
    assert_eq!(hash_of(&JsOption::Present(3)), hash_of(&JsOption::Present(3)));
    assert_eq!(hash_of(&JsOption::Null), hash_of(&JsOption::Null));
    assert_eq!(hash_of(&JsOption::Undefined), hash_of(&JsOption::Undefined));
}
