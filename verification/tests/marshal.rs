use inline_str::marshal::after_heap_copy;
use inline_str::marshal::after_length_query;
use inline_str::marshal::after_stack_copy;
use inline_str::marshal::CopyPlan;
use inline_str::marshal::MarshalError;
use inline_str::marshal::Scratch;
use inline_str::marshal::HOST_OK;
use inline_str::marshal::STACK_SCRATCH_LEN;
use inline_str::SizeClass;

#[test]
fn failed_length_query_is_reported() {
    assert_eq!(after_length_query(1, 10), Err(MarshalError::LengthQuery { status: 1 }));
    assert_eq!(after_length_query(-3, 1000), Err(MarshalError::LengthQuery { status: -3 }));
}

#[test]
fn short_strings_use_the_fixed_area() {
    assert_eq!(after_length_query(HOST_OK, 0), Ok(CopyPlan { scratch: Scratch::Stack, size: 1 }));
    assert_eq!(after_length_query(HOST_OK, 5), Ok(CopyPlan { scratch: Scratch::Stack, size: 6 }));
    assert_eq!(
        after_length_query(HOST_OK, 256),
        Ok(CopyPlan { scratch: Scratch::Stack, size: 257 })
    );
    assert_eq!(STACK_SCRATCH_LEN, 257);
}

#[test]
fn long_strings_use_an_allocation() {
    assert_eq!(
        after_length_query(HOST_OK, 257),
        Ok(CopyPlan { scratch: Scratch::Heap { capacity: 258 }, size: 258 })
    );
    assert_eq!(
        after_length_query(HOST_OK, 5000),
        Ok(CopyPlan { scratch: Scratch::Heap { capacity: 5001 }, size: 5001 })
    );
}

#[test]
fn failed_copy_is_reported() {
    assert!(matches!(
        after_stack_copy(9, b"abc"),
        Err(MarshalError::StackCopy { status: 9 })
    ));
    assert!(matches!(
        after_heap_copy(9, vec![b'a'; 300]),
        Err(MarshalError::HeapCopy { status: 9 })
    ));
}

#[test]
fn failed_copy_comes_before_the_encoding() {
    assert!(matches!(after_stack_copy(2, &[0x80]), Err(MarshalError::StackCopy { status: 2 })));
    assert!(matches!(after_heap_copy(2, vec![0x80]), Err(MarshalError::HeapCopy { status: 2 })));
}

#[test]
fn lone_continuation_byte_from_host_is_an_encoding_error() {
    assert!(matches!(after_stack_copy(HOST_OK, &[0x80]), Err(MarshalError::InvalidEncoding)));
    let mut long = vec![b'a'; 300];
    long[150] = 0x80;
    assert!(matches!(after_heap_copy(HOST_OK, long), Err(MarshalError::InvalidEncoding)));
}

#[test]
fn valid_copy_becomes_a_buffer() {
    let built = after_stack_copy(HOST_OK, "caf\u{e9}".as_bytes()).unwrap();
    assert_eq!(built.as_str(), "caf\u{e9}");
    assert_eq!(built.size_class(), SizeClass::B8);
    let text = "n".repeat(300);
    let built = after_heap_copy(HOST_OK, text.clone().into_bytes()).unwrap();
    assert_eq!(built.as_str(), text.as_str());
    assert_eq!(built.size_class(), SizeClass::Boxed);
}

#[test]
fn errors_describe_themselves() {
    assert_eq!(MarshalError::LengthQuery { status: 1 }.reason(), "Failed to get string size");
    assert_eq!(MarshalError::StackCopy { status: 1 }.reason(), "Failed stack read");
    assert_eq!(MarshalError::HeapCopy { status: 1 }.reason(), "Failed heap read");
    assert_eq!(MarshalError::InvalidEncoding.reason(), "invalid utf-8 sequence");
    assert_eq!(MarshalError::LengthQuery { status: 4 }.host_status(), Some(4));
    assert_eq!(MarshalError::StackCopy { status: 5 }.host_status(), Some(5));
    assert_eq!(MarshalError::HeapCopy { status: 6 }.host_status(), Some(6));
    assert_eq!(MarshalError::InvalidEncoding.host_status(), None);
}
