use image::DynamicImage;
use image::RgbImage;
use sixel::bridge::Action;
use sixel::bridge::Bridge;
use sixel::bridge::Event;
use sixel::bridge::Phase;
use sixel::bridge::QUANTIZATION_PROFILE;
use sixel::bridge::STATUS_OK;
use sixel::error::EncodeError;
use sixel::sink::CHUNK_ACCEPTED;
use sixel::sink::CHUNK_REFUSED;
use sixel::text::as_text;
use sixel::Sixel;

/// What a stand-in encoder and sink answer.
struct Answers {
    session: i32,
    profile: bool,
    sink: bool,
}

const WILLING: Answers = Answers { session: 0, profile: true, sink: true };

/// Carries one encode call through, performing each action that the bridge
/// names. Returns the outcome and the actions in the order they were named.
fn carry_out(
    mut bridge: Bridge,
    pixels: &[u8],
    answers: &Answers,
    encoder: &dyn Fn(&[u8], &mut Bridge) -> i32,
    sink: &mut Vec<u8>,
) -> (Option<Result<Vec<u8>, EncodeError>>, Vec<Action>) {
    let mut actions = Vec::new();
    let mut action = bridge.pending();
    for _ in 0..16 {
        actions.push(action);
        let event = match action {
            Action::CreateSession => Event::SessionStatus(answers.session),
            Action::AcquireProfile(_) => Event::ProfileHandle(answers.profile),
            Action::Encode => Event::EncodeStatus(encoder(pixels, &mut bridge)),
            Action::Deliver => {
                if answers.sink {
                    sink.extend_from_slice(bridge.output());
                }
                Event::SinkStatus(answers.sink)
            }
            Action::Finish { .. } => return (bridge.outcome(), actions),
        };
        action = bridge.advance(event);
    }
    panic!("the call did not end");
}

fn echo_length(pixels: &[u8], bridge: &mut Bridge) -> i32 {
    let text = format!("{}", pixels.len());
    bridge.accept_chunk(text.as_bytes())
}

fn three_chunks(_pixels: &[u8], bridge: &mut Bridge) -> i32 {
    assert_eq!(bridge.accept_chunk(b"C1|"), CHUNK_ACCEPTED);
    assert_eq!(bridge.accept_chunk(b"C2|"), CHUNK_ACCEPTED);
    assert_eq!(bridge.accept_chunk(b"C3"), CHUNK_ACCEPTED);
    0
}

fn fail_after_output(_pixels: &[u8], bridge: &mut Bridge) -> i32 {
    bridge.accept_chunk(b"partial");
    -1
}

fn silent(_pixels: &[u8], _bridge: &mut Bridge) -> i32 {
    0
}

fn encoding() -> Bridge {
    let mut bridge = Bridge::new();
    assert_eq!(bridge.advance(Event::SessionStatus(0)), Action::AcquireProfile(3));
    assert_eq!(bridge.advance(Event::ProfileHandle(true)), Action::Encode);
    bridge
}

#[test]
fn stub_encoder_echoes_the_buffer_length() {
    let image = DynamicImage::ImageRgb8(
        RgbImage::from_raw(2, 1, vec![255, 0, 0, 0, 255, 0]).unwrap(),
    );
    let (buffer, bridge) = Sixel::begin(&image);
    assert_eq!(buffer.as_slice(), &[255u8, 0, 0, 0, 255, 0][..]);
    let mut sink = Vec::new();
    let (outcome, actions) = carry_out(bridge, buffer.as_slice(), &WILLING, &echo_length, &mut sink);
    assert_eq!(outcome, Some(Ok(b"6".to_vec())));
    assert_eq!(sink, b"6".to_vec());
    assert_eq!(as_text(&sink), Ok("6"));
    assert_eq!(
        actions,
        vec![
            Action::CreateSession,
            Action::AcquireProfile(3),
            Action::Encode,
            Action::Deliver,
            Action::Finish { release_session: true, release_profile: true },
        ]
    );
}

#[test]
fn empty_image_is_carried_through_without_panic() {
    let image = DynamicImage::new_rgb8(0, 0);
    let (buffer, bridge) = Sixel::begin(&image);
    assert!(buffer.as_slice().is_empty());
    let mut sink = Vec::new();
    let (outcome, _) = carry_out(bridge, buffer.as_slice(), &WILLING, &silent, &mut sink);
    assert_eq!(outcome, Some(Ok(Vec::new())));
    assert!(sink.is_empty());

    let (buffer, bridge) = Sixel::begin(&DynamicImage::new_rgb8(0, 3));
    let mut sink = Vec::new();
    let (outcome, _) =
        carry_out(bridge, buffer.as_slice(), &WILLING, &fail_after_output, &mut sink);
    assert_eq!(outcome, Some(Err(EncodeError::EncodeFailed)));
    assert!(sink.is_empty());
}

#[test]
fn chunks_reach_the_output_in_their_order() {
    let mut sink = Vec::new();
    let (outcome, _) = carry_out(Bridge::new(), &[], &WILLING, &three_chunks, &mut sink);
    assert_eq!(outcome, Some(Ok(b"C1|C2|C3".to_vec())));
    assert_eq!(sink, b"C1|C2|C3".to_vec());
}

#[test]
fn same_answers_give_the_same_output() {
    let pixels = [1u8, 2, 3, 4, 5, 6, 7, 8, 9];
    let mut first_sink = Vec::new();
    let mut second_sink = Vec::new();
    let (first, _) = carry_out(Bridge::new(), &pixels, &WILLING, &echo_length, &mut first_sink);
    let (second, _) = carry_out(Bridge::new(), &pixels, &WILLING, &echo_length, &mut second_sink);
    assert_eq!(first, Some(Ok(b"9".to_vec())));
    assert_eq!(first, second);
    assert_eq!(first_sink, second_sink);
}

#[test]
fn session_failure_ends_the_call_at_once() {
    let answers = Answers { session: 1, profile: true, sink: true };
    let mut sink = Vec::new();
    let (outcome, actions) = carry_out(Bridge::new(), &[], &answers, &three_chunks, &mut sink);
    assert_eq!(outcome, Some(Err(EncodeError::SessionCreationFailed)));
    assert_eq!(
        actions,
        vec![
            Action::CreateSession,
            Action::Finish { release_session: false, release_profile: false },
        ]
    );
    assert!(sink.is_empty());
}

#[test]
fn missing_profile_ends_the_call() {
    let answers = Answers { session: 0, profile: false, sink: true };
    let mut sink = Vec::new();
    let (outcome, actions) = carry_out(Bridge::new(), &[], &answers, &three_chunks, &mut sink);
    assert_eq!(outcome, Some(Err(EncodeError::ProfileUnavailable)));
    assert_eq!(
        actions,
        vec![
            Action::CreateSession,
            Action::AcquireProfile(QUANTIZATION_PROFILE),
            Action::Finish { release_session: true, release_profile: false },
        ]
    );
    assert!(sink.is_empty());
}

#[test]
fn encode_failure_leaves_the_sink_untouched() {
    let mut sink = Vec::new();
    let (outcome, actions) =
        carry_out(Bridge::new(), &[0, 0, 0], &WILLING, &fail_after_output, &mut sink);
    assert_eq!(outcome, Some(Err(EncodeError::EncodeFailed)));
    assert!(sink.is_empty());
    assert!(!actions.contains(&Action::Deliver));
    assert_eq!(
        actions.last(),
        Some(&Action::Finish { release_session: true, release_profile: true })
    );
}

#[test]
fn encode_failure_discards_partial_output() {
    let mut bridge = encoding();
    assert_eq!(bridge.accept_chunk(b"partial"), 0);
    assert_eq!(bridge.output(), &b"partial"[..]);
    let action = bridge.advance(Event::EncodeStatus(7));
    assert_eq!(action, Action::Finish { release_session: true, release_profile: true });
    assert_eq!(bridge.phase(), Phase::Failed(EncodeError::EncodeFailed));
    assert!(bridge.output().is_empty());
    assert_eq!(bridge.outcome(), Some(Err(EncodeError::EncodeFailed)));
}

#[test]
fn negative_status_is_a_failure_too() {
    let mut bridge = Bridge::new();
    bridge.advance(Event::SessionStatus(-1));
    assert_eq!(bridge.phase(), Phase::Failed(EncodeError::SessionCreationFailed));
    let mut bridge = encoding();
    bridge.advance(Event::EncodeStatus(i32::MIN));
    assert_eq!(bridge.phase(), Phase::Failed(EncodeError::EncodeFailed));
}

#[test]
fn sink_failure_is_reported() {
    let answers = Answers { session: 0, profile: true, sink: false };
    let mut sink = Vec::new();
    let (outcome, actions) = carry_out(Bridge::new(), &[], &answers, &three_chunks, &mut sink);
    assert_eq!(outcome, Some(Err(EncodeError::SinkWriteFailed)));
    assert_eq!(
        actions,
        vec![
            Action::CreateSession,
            Action::AcquireProfile(3),
            Action::Encode,
            Action::Deliver,
            Action::Finish { release_session: true, release_profile: true },
        ]
    );
}

#[test]
fn phases_follow_one_another() {
    let mut bridge = Bridge::new();
    assert_eq!(bridge.phase(), Phase::Idle);
    assert_eq!(bridge.pending(), Action::CreateSession);
    bridge.advance(Event::SessionStatus(STATUS_OK));
    assert_eq!(bridge.phase(), Phase::SessionCreated);
    assert_eq!(bridge.pending(), Action::AcquireProfile(3));
    bridge.advance(Event::ProfileHandle(true));
    assert_eq!(bridge.phase(), Phase::Encoding);
    assert_eq!(bridge.pending(), Action::Encode);
    bridge.advance(Event::EncodeStatus(STATUS_OK));
    assert_eq!(bridge.phase(), Phase::Delivering);
    assert_eq!(bridge.pending(), Action::Deliver);
    bridge.advance(Event::SinkStatus(true));
    assert_eq!(bridge.phase(), Phase::Succeeded);
    assert_eq!(
        bridge.pending(),
        Action::Finish { release_session: true, release_profile: true }
    );
    assert_eq!(bridge.outcome(), Some(Ok(Vec::new())));
}

#[test]
fn unfinished_call_has_no_outcome() {
    assert_eq!(Bridge::new().outcome(), None);
    assert_eq!(encoding().outcome(), None);
    let mut bridge = encoding();
    bridge.accept_chunk(b"abc");
    bridge.advance(Event::EncodeStatus(0));
    assert_eq!(bridge.output(), &b"abc"[..]);
    assert_eq!(bridge.outcome(), None);
}

#[test]
fn chunks_are_refused_unless_encoding() {
    let mut bridge = Bridge::new();
    assert_eq!(bridge.accept_chunk(b"early"), CHUNK_REFUSED);
    assert!(bridge.output().is_empty());
    bridge.advance(Event::SessionStatus(0));
    assert_eq!(bridge.accept_chunk(b"early"), CHUNK_REFUSED);
    assert!(bridge.output().is_empty());
    bridge.advance(Event::ProfileHandle(true));
    assert_eq!(bridge.accept_chunk(b"now"), CHUNK_ACCEPTED);
    bridge.advance(Event::EncodeStatus(0));
    assert_eq!(bridge.accept_chunk(b"late"), CHUNK_REFUSED);
    assert_eq!(bridge.output(), &b"now"[..]);
    bridge.advance(Event::SinkStatus(true));
    assert_eq!(bridge.accept_chunk(b"later"), CHUNK_REFUSED);
    assert_eq!(bridge.outcome(), Some(Ok(b"now".to_vec())));
}

#[test]
fn answers_out_of_turn_are_ignored() {
    let mut bridge = Bridge::new();
    assert_eq!(bridge.advance(Event::EncodeStatus(0)), Action::CreateSession);
    assert_eq!(bridge.advance(Event::ProfileHandle(false)), Action::CreateSession);
    assert_eq!(bridge.advance(Event::SinkStatus(false)), Action::CreateSession);
    assert_eq!(bridge.phase(), Phase::Idle);
    let mut bridge = encoding();
    bridge.accept_chunk(b"x");
    assert_eq!(bridge.advance(Event::SessionStatus(9)), Action::Encode);
    assert_eq!(bridge.advance(Event::SinkStatus(true)), Action::Encode);
    assert_eq!(bridge.phase(), Phase::Encoding);
    assert_eq!(bridge.output(), &b"x"[..]);
}

#[test]
fn finished_call_stays_finished() {
    let mut bridge = encoding();
    bridge.advance(Event::EncodeStatus(3));
    let finish = Action::Finish { release_session: true, release_profile: true };
    assert_eq!(bridge.advance(Event::EncodeStatus(0)), finish);
    assert_eq!(bridge.advance(Event::SinkStatus(true)), finish);
    assert_eq!(bridge.advance(Event::SessionStatus(0)), finish);
    assert_eq!(bridge.accept_chunk(b"more"), CHUNK_REFUSED);
    assert_eq!(bridge.phase(), Phase::Failed(EncodeError::EncodeFailed));
    assert!(bridge.output().is_empty());
}

#[test]
fn the_profile_is_fixed() {
    assert_eq!(QUANTIZATION_PROFILE, 3);
    assert_eq!(STATUS_OK, 0);
}
