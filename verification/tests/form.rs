use iroh_willow::form::{payload_of_bytes, payload_of_hash, AuthForm, PayloadError, SubspaceForm, TimestampForm, UserId, WriteCapability};

#[test]
fn user_id_of_any() {
    let user = UserId([4u8; 32]);
    assert_eq!(AuthForm::Any(user).user_id().0, [4u8; 32]);
}

#[test]
fn user_id_of_exact_is_the_receiver() {
    let cap = WriteCapability { receiver: UserId([9u8; 32]) };
    assert_eq!(cap.receiver().0, [9u8; 32]);
    assert_eq!(AuthForm::Exact(cap).user_id().0, [9u8; 32]);
}

#[test]
fn auth_form_from_user_or_capability() {
    let form: AuthForm = UserId([1u8; 32]).into();
    assert!(matches!(form, AuthForm::Any(_)));
    assert_eq!(form.user_id().0, [1u8; 32]);
    let form: AuthForm = WriteCapability { receiver: UserId([2u8; 32]) }.into();
    assert!(matches!(form, AuthForm::Exact(_)));
    assert_eq!(form.user_id().0, [2u8; 32]);
}

#[test]
fn subspace_and_timestamp_forms() {
    let s = SubspaceForm::Exact(UserId([3u8; 32]));
    match s {
        SubspaceForm::Exact(id) => assert_eq!(id.0, [3u8; 32]),
        SubspaceForm::User => unreachable!(),
    }
    let t = TimestampForm::Exact(1_700_000_000_000_000);
    match t {
        TimestampForm::Exact(ts) => assert_eq!(ts, 1_700_000_000_000_000),
        TimestampForm::Now => unreachable!(),
    }
    assert!(matches!(SubspaceForm::User, SubspaceForm::User));
    assert!(matches!(TimestampForm::Now, TimestampForm::Now));
}

#[test]
fn payload_of_existing_hash() {
    let h = iroh_base::hash::Hash::new(b"hello");
    assert_eq!(payload_of_hash(h, Some(5)), Ok((h, 5)));
}

#[test]
fn payload_of_unknown_hash_is_refused() {
    let h = iroh_base::hash::Hash::new(b"nothing stored");
    assert_eq!(payload_of_hash(h, None), Err(PayloadError::HashNotFound));
}

#[test]
fn payload_of_imported_bytes() {
    let data = b"alfie0".to_vec();
    let h = iroh_base::hash::Hash::new(&data);
    assert_eq!(payload_of_bytes(h, data.len()), (h, 6));
}
