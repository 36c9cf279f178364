use chat_mirror::api_error::{
    decimal_string, ErrorCode, GeneralApiError, MessageApiError, MessageApiErrorEmbedField,
};

struct AssertErrorCode<'a> {
    code: ErrorCode,
    display: &'a str,
    num: u64,
}

/// Test that the provided error code has the correct number and that the
/// variant's display string is correct.
fn assert_error_code(details: AssertErrorCode<'_>) {
    let AssertErrorCode { code, display, num } = details;

    assert_eq!(num, code.num());
    assert_eq!(code, ErrorCode::from(num));
    assert_eq!(display, code.message());
}

/// Test the values and display strings of error codes.
#[test]
fn test_variants() {
    assert_error_code(AssertErrorCode {
        code: ErrorCode::UnknownDiscoverableServerCategory,
        display: "Unknown discoverable server category",
        num: 10059,
    });
    assert_error_code(AssertErrorCode {
        code: ErrorCode::UnknownSticker,
        display: "Unknown sticker",
        num: 10060,
    });
    assert_error_code(AssertErrorCode {
        code: ErrorCode::UnknownGuildMemberVerificationForm,
        display: "Unknown Guild Member Verification Form",
        num: 10068,
    });
    assert_error_code(AssertErrorCode {
        code: ErrorCode::UnknownGuildWelcomeScreen,
        display: "Unknown Guild Welcome Screen",
        num: 10069,
    });
    assert_error_code(AssertErrorCode {
        code: ErrorCode::MaximumServerCategoriesReached,
        display: "Maximum number of server categories has been reached",
        num: 30030,
    });
    assert_error_code(AssertErrorCode {
        code: ErrorCode::MaximumStickersReached,
        display: "Maximum number of stickers reached",
        num: 30039,
    });
    assert_error_code(AssertErrorCode {
        code: ErrorCode::MaximumPruneRequestsReached,
        display: "Maximum number of prune requests has been reached. Try again later",
        num: 30040,
    });
}

#[test]
fn test_unregistered_code_is_kept() {
    assert_eq!(ErrorCode::Other(99999), ErrorCode::from(99999));
    assert_eq!(99999, ErrorCode::Other(99999).num());
    assert_eq!(
        "An error code Twilight doesn't have registered: 99999",
        ErrorCode::Other(99999).message()
    );
}

#[test]
fn test_num_from_roundtrip_values() {
    for n in [0u64, 10001, 20001, 30040, 50097, 130_000, 160_007, 424_242] {
        assert_eq!(n, ErrorCode::from(n).num());
    }
    assert_eq!(
        ErrorCode::ApiResourceOverloaded,
        ErrorCode::from(ErrorCode::ApiResourceOverloaded.num())
    );
}

#[test]
fn test_decimal_string() {
    assert_eq!("0", decimal_string(0));
    assert_eq!("7", decimal_string(7));
    assert_eq!("10001", decimal_string(10001));
    assert_eq!("130000", decimal_string(130_000));
    assert_eq!("18446744073709551615", decimal_string(u64::MAX));
}

#[test]
fn test_general_api_error_display() {
    let error = GeneralApiError {
        code: ErrorCode::UnknownAccount,
        message: "Unknown account".to_owned(),
    };
    assert_eq!("Error code 10001: Unknown account", error.display_string());
}

#[test]
fn test_message_api_error_display() {
    let none = MessageApiError { embed: None };
    assert_eq!("message fields invalid: ", none.display_string());

    let empty = MessageApiError {
        embed: Some(Vec::new()),
    };
    assert_eq!("message fields invalid: embed ()", empty.display_string());

    // The separator is written after the last field.
    let both = MessageApiError {
        embed: Some(vec![
            MessageApiErrorEmbedField::Fields,
            MessageApiErrorEmbedField::Timestamp,
        ]),
    };
    assert_eq!(
        "message fields invalid: embed (fieldstimestamp, )",
        both.display_string()
    );
}

#[test]
fn test_embed_field_display() {
    assert_eq!("fields", MessageApiErrorEmbedField::Fields.display_string());
    assert_eq!(
        "timestamp",
        MessageApiErrorEmbedField::Timestamp.display_string()
    );
}
