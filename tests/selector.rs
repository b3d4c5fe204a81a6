use ntex::time::Seconds;

use mqtt_selector::codec::{Connect, Frame};
use mqtt_selector::selector::{
    all_ready, first_frame, MqttError, Phase, ReadError, Reply, Selection, Selector, Step,
};

#[derive(Clone, Copy)]
enum Answer {
    Claim,
    Decline,
    Fail,
}

fn connect_frame(client_id: &str) -> Frame {
    Frame::Connect(Box::new(Connect {
        protocol_level: 4,
        clean_session: false,
        keep_alive: 60,
        last_will: None,
        client_id: String::from(client_id),
        username: None,
        password: None,
    }))
}

/// Runs one handshake against candidates that answer as given; returns the outcome
/// and the indices of the candidates consulted, in order.
fn drive(
    read: Result<Option<Frame>, ReadError>,
    answers: &[Answer],
) -> (Result<usize, MqttError<&'static str>>, Vec<usize>) {
    let mut consulted = Vec::new();
    let mut sel = Selection::new(answers.len());
    let connect = match sel.on_frame::<&'static str>(read) {
        Ok(c) => c,
        Err(e) => return (Err(e), consulted),
    };
    let mut step = sel.begin::<Box<Connect>, &'static str>(connect);
    loop {
        match step {
            Step::Offer { index, item } => {
                consulted.push(index);
                let reply = match answers[index] {
                    Answer::Claim => Ok(Reply::Claimed),
                    Answer::Decline => Ok(Reply::Declined(item)),
                    Answer::Fail => Err("variant failed"),
                };
                step = sel.on_reply(reply);
            }
            Step::Claimed => match sel.phase {
                Phase::Claimed(i) => return (Ok(i), consulted),
                _ => panic!("claimed without a claiming variant"),
            },
            Step::Fail(e) => return (Err(e), consulted),
        }
    }
}

#[test]
fn first_accepting_candidate_claims() {
    let (r, consulted) = drive(
        Ok(Some(connect_frame("a"))),
        &[Answer::Claim, Answer::Decline, Answer::Claim],
    );
    assert!(matches!(r, Ok(0)));
    assert_eq!(consulted, vec![0]);
}

#[test]
fn declined_connection_moves_on_in_order() {
    let (r, consulted) = drive(
        Ok(Some(connect_frame("b"))),
        &[Answer::Decline, Answer::Decline, Answer::Claim],
    );
    assert!(matches!(r, Ok(2)));
    assert_eq!(consulted, vec![0, 1, 2]);
}

#[test]
fn declined_item_is_handed_on_unchanged() {
    let mut sel = Selection::new(2);
    let c = sel.on_frame::<()>(Ok(Some(connect_frame("keep-me")))).ok().unwrap();
    let step = sel.begin::<Box<Connect>, ()>(c);
    let item = match step {
        Step::Offer { index: 0, item } => item,
        _ => panic!("expected an offer to the first variant"),
    };
    match sel.on_reply::<Box<Connect>, ()>(Ok(Reply::Declined(item))) {
        Step::Offer { index, item } => {
            assert_eq!(index, 1);
            assert_eq!(item.client_id, "keep-me");
        }
        _ => panic!("expected an offer to the second variant"),
    }
    assert_eq!(sel.phase, Phase::Offered(1));
}

#[test]
fn all_declining_fails() {
    let (r, consulted) = drive(
        Ok(Some(connect_frame("c"))),
        &[Answer::Decline, Answer::Decline, Answer::Decline],
    );
    assert!(matches!(r, Err(MqttError::NoCandidateAccepted)));
    assert_eq!(consulted, vec![0, 1, 2]);
}

#[test]
fn no_candidates_fails() {
    let (r, consulted) = drive(Ok(Some(connect_frame("d"))), &[]);
    assert!(matches!(r, Err(MqttError::NoCandidateAccepted)));
    assert!(consulted.is_empty());
}

#[test]
fn variant_error_aborts() {
    let (r, consulted) = drive(
        Ok(Some(connect_frame("e"))),
        &[Answer::Decline, Answer::Fail, Answer::Claim],
    );
    assert!(matches!(r, Err(MqttError::Service("variant failed"))));
    assert_eq!(consulted, vec![0, 1]);
}

#[test]
fn non_connect_first_frame_is_a_protocol_violation() {
    let (r, consulted) = drive(Ok(Some(Frame::Other(3))), &[Answer::Claim]);
    assert!(matches!(r, Err(MqttError::Unexpected(3))));
    assert!(consulted.is_empty());
}

#[test]
fn read_failures() {
    let (r, _) = drive(Ok(None), &[Answer::Claim]);
    assert!(matches!(r, Err(MqttError::Disconnected)));
    let (r, _) = drive(Err(ReadError::Io), &[Answer::Claim]);
    assert!(matches!(r, Err(MqttError::Io)));
    let (r, consulted) = drive(Err(ReadError::Decode), &[Answer::Claim]);
    assert!(matches!(r, Err(MqttError::Decode)));
    assert!(consulted.is_empty());
}

#[test]
fn first_frame_accepts_connect() {
    let r = first_frame::<()>(Ok(Some(connect_frame("f"))));
    assert_eq!(r.ok().unwrap().client_id, "f");
}

#[test]
fn timeout_while_candidates_hang() {
    let sel_service = Selector::<()>::new().handshake_timeout(5).variant(()).new_service(vec!["a", "b"]);
    assert_eq!(sel_service.handshake_deadline(), Some(Seconds(5)));
    let mut sel = sel_service.selection();
    assert_eq!(sel.candidates, 2);
    let c = sel.on_frame::<()>(Ok(Some(connect_frame("g")))).ok().unwrap();
    let _pending = sel.begin::<Box<Connect>, ()>(c);
    let step = sel.on_timeout::<Box<Connect>, ()>();
    assert!(matches!(step, Step::Fail(MqttError::HandshakeTimeout)));
    assert_eq!(sel.phase, Phase::Failed);
}

#[test]
fn timeout_while_reading_first_frame() {
    let mut sel = Selection::new(1);
    let step = sel.on_timeout::<(), ()>();
    assert!(matches!(step, Step::Fail(MqttError::HandshakeTimeout)));
    assert_eq!(sel.phase, Phase::Failed);
}

#[test]
fn no_timeout_by_default() {
    let service = Selector::<u8>::new().new_service(Vec::<u8>::new());
    assert_eq!(service.handshake_deadline(), None);
}

#[test]
fn one_pending_candidate_blocks_readiness() {
    assert!(!all_ready(&vec![true, false, true]));
    assert!(!all_ready(&vec![false, true, true]));
    assert!(all_ready(&vec![true, true, true]));
    assert!(all_ready(&vec![]));
}

#[test]
fn selector_configuration() {
    let sel = Selector::new().max_size(4096).handshake_timeout(10).variant("a").variant("b");
    assert_eq!(sel.servers, vec!["a", "b"]);
    assert_eq!(sel.max_size, 4096);
    assert_eq!(sel.handshake_timeout, 10);
    let service = sel.new_service(vec![1u8, 2]);
    assert_eq!(*service.servers, vec![1, 2]);
    assert_eq!(service.max_size, 4096);
    let state = service.connection_state();
    assert_eq!(state.max_size, 4096);
    assert_eq!(state.inflight, 16);
    assert!(std::rc::Rc::ptr_eq(&state.pool, &service.pool));
}
