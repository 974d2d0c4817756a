use ed25519_dalek::Signer;
use f1_notifications::discord::{
    bulk_delete_url, classify_interaction, create_message_url, decode_hex, interaction_authentic,
    interaction_response_url, message_url_of, rate_limited, reply_for, testing_response, Interaction,
    InteractionDataError, InteractionReply, EPHEMERAL, SUPPRESS_NOTIFICATIONS,
};

#[test]
fn endpoint_urls() {
    assert_eq!(create_message_url("42"), "https://discord.com/api/v10/channels/42/messages");
    assert_eq!(message_url_of("42", "7"), "https://discord.com/api/v10/channels/42/messages/7");
    assert_eq!(
        interaction_response_url("1", "tok"),
        "https://discord.com/api/v10/interactions/1/tok/callback"
    );
    assert_eq!(bulk_delete_url("42"), "https://discord.com/api/v10/channels/42/messages/bulk-delete");
    assert!(rate_limited(429));
    assert!(!rate_limited(200));
    assert_eq!(EPHEMERAL, 64);
    assert_eq!(SUPPRESS_NOTIFICATIONS, 4096);
}

#[test]
fn interactions() {
    assert_eq!(Interaction::from_code(1), Some(Interaction::Ping));
    assert_eq!(Interaction::from_code(5), Some(Interaction::ModalSubmit));
    assert_eq!(Interaction::from_code(6), None);
    assert_eq!(Interaction::Autocomplete.code(), 4);
    assert_eq!(classify_interaction(None, true), Err(InteractionDataError::MissingType));
    assert_eq!(classify_interaction(Some(2), false), Err(InteractionDataError::MissingData));
    assert_eq!(classify_interaction(Some(3), true), Ok(Interaction::MessageComponent));
    assert_eq!(classify_interaction(Some(9), true), Err(InteractionDataError::UnknownType(9)));
    assert_eq!(reply_for(&Interaction::Ping), InteractionReply::Pong);
    assert_eq!(reply_for(&Interaction::ApplicationCommand), InteractionReply::Acknowledge);
    let r = testing_response();
    assert_eq!((r.kind, r.data.content, r.data.flags), (4, "This is just a test!", 64));
}

#[test]
fn hex_decoding() {
    assert_eq!(decode_hex("0aFf", 2), Some(vec![10, 255]));
    assert_eq!(decode_hex("0aF", 2), None);
    assert_eq!(decode_hex("0aFf", 3), None);
    assert_eq!(decode_hex("0g00", 2), None);
}

#[test]
fn signatures() {
    let key = ed25519_dalek::SigningKey::from_bytes(&[7u8; 32]);
    let public = key.verifying_key().to_bytes();
    let signature = key.sign(b"1700000000{\"type\":1}").to_bytes();
    let hex_sig = hex::encode(signature);
    let decoded = decode_hex(&hex_sig, 64).unwrap();
    assert!(interaction_authentic(&public, &decoded, "1700000000", "{\"type\":1}"));
    assert!(!interaction_authentic(&public, &decoded, "1700000001", "{\"type\":1}"));
    assert!(!interaction_authentic(&public, &decoded, "1700000000", "{\"type\":2}"));
}
