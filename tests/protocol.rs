use wisdom_pow::protocol::{DecodeError, Message};
use wisdom_pow::solution::{Challenge, Solution};

fn round_trip(m: Message) {
    let bytes = m.encode();
    assert_eq!(Message::decode(&bytes), Ok(m));
}

#[test]
fn every_variant_round_trips() {
    round_trip(Message::Hello);
    round_trip(Message::Challenge(Challenge { value: 42, n_leading_zeros: 1 }));
    round_trip(Message::Challenge(Challenge { value: u64::MAX, n_leading_zeros: 255 }));
    round_trip(Message::Solution(Solution { challenge: 42, nonce: 12345 }));
    round_trip(Message::Wisdom(String::new()));
    round_trip(Message::Wisdom("Observe sunset at least once a day".to_string()));
    round_trip(Message::Wisdom("żółć ✓ 🦀".to_string()));
}

#[test]
fn encoding_matches_bincode_layout() {
    assert_eq!(Message::Hello.encode(), bincode::serialize(&0u32).unwrap());
    assert_eq!(
        Message::Challenge(Challenge { value: 42, n_leading_zeros: 1 }).encode(),
        bincode::serialize(&(1u32, 42u64, 1u8)).unwrap()
    );
    assert_eq!(
        Message::Solution(Solution { challenge: 42, nonce: 7 }).encode(),
        bincode::serialize(&(2u32, 42u64, 7u64)).unwrap()
    );
    assert_eq!(
        Message::Wisdom("hi ✓".to_string()).encode(),
        bincode::serialize(&(3u32, "hi ✓".to_string())).unwrap()
    );
}

#[test]
fn exact_bytes_of_a_challenge() {
    assert_eq!(
        Message::Challenge(Challenge { value: 42, n_leading_zeros: 1 }).encode(),
        vec![1, 0, 0, 0, 42, 0, 0, 0, 0, 0, 0, 0, 1]
    );
    assert_eq!(
        Message::Wisdom("ab".to_string()).encode(),
        vec![3, 0, 0, 0, 2, 0, 0, 0, 0, 0, 0, 0, b'a', b'b']
    );
}

#[test]
fn unknown_tag_is_refused() {
    assert_eq!(Message::decode(&[4, 0, 0, 0]), Err(DecodeError));
    assert_eq!(Message::decode(&[0xff, 0, 0, 0, 1, 2, 3]), Err(DecodeError));
    assert_eq!(Message::decode(&[0, 0, 0, 1]), Err(DecodeError));
}

#[test]
fn truncated_frames_are_refused() {
    assert_eq!(Message::decode(&[]), Err(DecodeError));
    assert_eq!(Message::decode(&[0, 0, 0]), Err(DecodeError));
    let full = Message::Challenge(Challenge { value: 9, n_leading_zeros: 2 }).encode();
    assert_eq!(Message::decode(&full[..full.len() - 1]), Err(DecodeError));
    let full = Message::Solution(Solution { challenge: 9, nonce: 2 }).encode();
    assert_eq!(Message::decode(&full[..full.len() - 1]), Err(DecodeError));
    let full = Message::Wisdom("text".to_string()).encode();
    assert_eq!(Message::decode(&full[..full.len() - 1]), Err(DecodeError));
    assert_eq!(Message::decode(&full[..10]), Err(DecodeError));
}

#[test]
fn text_that_is_not_utf8_is_refused() {
    let bytes = vec![3, 0, 0, 0, 2, 0, 0, 0, 0, 0, 0, 0, 0xc3, 0x28];
    assert_eq!(Message::decode(&bytes), Err(DecodeError));
}

#[test]
fn bytes_after_a_message_are_ignored() {
    let mut bytes = Message::Hello.encode();
    bytes.extend_from_slice(&[9, 9, 9]);
    assert_eq!(Message::decode(&bytes), Ok(Message::Hello));
}

#[test]
fn decode_agrees_with_bincode() {
    let bytes = bincode::serialize(&(3u32, "wisdom".to_string())).unwrap();
    assert_eq!(Message::decode(&bytes), Ok(Message::Wisdom("wisdom".to_string())));
    let bytes = bincode::serialize(&(2u32, 5u64, 6u64)).unwrap();
    assert_eq!(
        Message::decode(&bytes),
        Ok(Message::Solution(Solution { challenge: 5, nonce: 6 }))
    );
}
