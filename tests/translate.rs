use joy2key::button::{Action, Button};
use joy2key::frame::decode_frame;
use joy2key::uniform::{classify, Axis, ButtonUniform, CodeMeaning, Error};

fn frame_of(code: u32, time: u32) -> [u8; 8] {
    let t = time.to_be_bytes();
    let c = code.to_be_bytes();
    [t[0], t[1], t[2], t[3], c[0], c[1], c[2], c[3]]
}

#[test]
fn decode_discards_time_field() {
    assert_eq!(decode_frame([0xff, 0xff, 0xff, 0xff, 0, 0, 2, 1]), 513);
    assert_eq!(decode_frame([1, 2, 3, 4, 0x01, 0x00, 0x01, 0x09]), 16777481);
    assert_eq!(decode_frame([0, 0, 0, 0, 0xff, 0x7f, 0x02, 0x01]), 4286513665);
    assert_eq!(decode_frame([9; 8]), 0x0909_0909);
    assert_eq!(decode_frame([0; 8]), 0);
}

#[test]
fn fixed_codes_resolve_to_their_pairs() {
    let table: [(i64, Button, Action); 14] = [
        (16777481, Button::Start, Action::Push),
        (265, Button::Start, Action::Release),
        (16777474, Button::A, Action::Push),
        (258, Button::A, Action::Release),
        (16777473, Button::B, Action::Push),
        (257, Button::B, Action::Release),
        (16777477, Button::C, Action::Push),
        (261, Button::C, Action::Release),
        (16777475, Button::X, Action::Push),
        (259, Button::X, Action::Release),
        (16777472, Button::Y, Action::Push),
        (256, Button::Y, Action::Release),
        (16777476, Button::Z, Action::Push),
        (260, Button::Z, Action::Release),
    ];
    let mut u = ButtonUniform::new();
    for (code, b, a) in table {
        assert_eq!(u.convert_to_uniform(code), Ok((b, a)));
        assert_eq!(u.convert_to_uniform(code), Ok((b, a)));
        assert_eq!(classify(code), Some(CodeMeaning::Fixed(b, a)));
    }
    assert_eq!(u.last_vertical(), Button::Down);
    assert_eq!(u.last_horizontal(), Button::Left);
}

#[test]
fn vertical_release_follows_last_push() {
    let mut u = ButtonUniform::new();
    assert_eq!(u.convert_to_uniform(25166337), Ok((Button::Up, Action::Push)));
    assert_eq!(u.convert_to_uniform(16777481), Ok((Button::Start, Action::Push)));
    assert_eq!(u.convert_to_uniform(25166336), Ok((Button::Left, Action::Push)));
    assert_eq!(u.convert_to_uniform(513), Ok((Button::Up, Action::Release)));
    assert_eq!(u.convert_to_uniform(4286513665), Ok((Button::Down, Action::Push)));
    assert_eq!(u.convert_to_uniform(513), Ok((Button::Down, Action::Release)));
}

#[test]
fn horizontal_release_follows_last_push() {
    let mut u = ButtonUniform::new();
    assert_eq!(u.convert_to_uniform(4286513664), Ok((Button::Right, Action::Push)));
    assert_eq!(u.convert_to_uniform(512), Ok((Button::Right, Action::Release)));
    assert_eq!(u.convert_to_uniform(25166336), Ok((Button::Left, Action::Push)));
    assert_eq!(u.convert_to_uniform(512), Ok((Button::Left, Action::Release)));
    assert_eq!(classify(512), Some(CodeMeaning::DirectionalRelease(Axis::Horizontal)));
}

#[test]
fn unknown_code_changes_nothing() {
    let mut u = ButtonUniform::new();
    assert_eq!(u.xdo(25166337), Ok(vec![(b'u', Action::Push)]));
    let held = u.held_symbols();
    assert_eq!(u.convert_to_uniform(12345), Err(Error::InvalidKey));
    assert_eq!(u.xdo(0), Err(Error::InvalidKey));
    assert_eq!(u.xdo(-1), Err(Error::InvalidKey));
    assert_eq!(classify(514), None);
    assert_eq!(u.held_symbols(), held);
    assert_eq!(u.last_vertical(), Button::Up);
    assert_eq!(u.last_horizontal(), Button::Left);
}

#[test]
fn combo_push_then_release_in_order() {
    let mut u = ButtonUniform::new();
    assert_eq!(u.xdo(16777477), Ok(vec![(b'a', Action::Push), (b'w', Action::Push)]));
    assert_eq!(u.held_symbols(), vec![b'a', b'w']);
    assert_eq!(u.xdo(261), Ok(vec![(b'a', Action::Release), (b'w', Action::Release)]));
    assert_eq!(u.held_symbols(), Vec::<u8>::new());
}

#[test]
fn shared_symbol_is_suppressed_while_held() {
    let mut u = ButtonUniform::new();
    assert_eq!(u.xdo(16777474), Ok(vec![(b'a', Action::Push)]));
    assert_eq!(u.xdo(16777477), Ok(vec![(b'w', Action::Push)]));
    assert_eq!(u.held_symbols(), vec![b'a', b'a', b'w']);
    assert_eq!(u.xdo(258), Ok(vec![]));
    assert_eq!(u.xdo(261), Ok(vec![(b'a', Action::Release), (b'w', Action::Release)]));
}

#[test]
fn repeated_push_accumulates() {
    let mut u = ButtonUniform::new();
    assert_eq!(u.xdo(16777475), Ok(vec![(b'x', Action::Push)]));
    assert_eq!(u.xdo(16777475), Ok(vec![]));
    assert_eq!(u.xdo(16777475), Ok(vec![]));
    assert_eq!(u.held_symbols(), vec![b'x', b'x', b'x']);
    assert_eq!(u.xdo(259), Ok(vec![]));
    assert_eq!(u.held_symbols(), vec![b'x', b'x']);
    assert_eq!(u.xdo(259), Ok(vec![]));
    assert_eq!(u.xdo(259), Ok(vec![(b'x', Action::Release)]));
    assert_eq!(u.held_symbols(), Vec::<u8>::new());
}

#[test]
fn release_of_unheld_symbol_is_sent() {
    let mut u = ButtonUniform::new();
    assert_eq!(u.xdo(256), Ok(vec![(b'y', Action::Release)]));
    assert_eq!(u.held_symbols(), Vec::<u8>::new());
}

#[test]
fn start_frame_pushes_s() {
    let mut u = ButtonUniform::new();
    let code = decode_frame(frame_of(16777481, 0xdead_beef));
    assert_eq!(code, 16777481);
    assert_eq!(u.xdo(code), Ok(vec![(b's', Action::Push)]));
}

#[test]
fn up_frames_push_then_release_u() {
    let mut u = ButtonUniform::new();
    assert_eq!(u.xdo(decode_frame(frame_of(25166337, 7))), Ok(vec![(b'u', Action::Push)]));
    assert_eq!(u.xdo(decode_frame(frame_of(16777473, 8))), Ok(vec![(b'w', Action::Push)]));
    assert_eq!(u.xdo(decode_frame(frame_of(513, 9))), Ok(vec![(b'u', Action::Release)]));
}

#[test]
fn unmapped_frame_dispatches_nothing() {
    let mut u = ButtonUniform::new();
    assert_eq!(u.xdo(16777477), Ok(vec![(b'a', Action::Push), (b'w', Action::Push)]));
    let code = decode_frame(frame_of(0x0102_0304, 1));
    assert_eq!(u.xdo(code), Err(Error::InvalidKey));
    assert_eq!(u.held_symbols(), vec![b'a', b'w']);
    assert_eq!(u.last_vertical(), Button::Down);
    assert_eq!(u.last_horizontal(), Button::Left);
}

#[test]
fn symbols_and_keywords() {
    assert_eq!(Button::C.symbols(), vec![b'a', b'w']);
    assert_eq!(Button::Z.symbols(), vec![b'x', b'y']);
    assert_eq!(Button::Left.symbols(), vec![b'q']);
    assert_eq!(Button::B.symbols(), vec![b'w']);
    assert_eq!(Action::Push.to_string(), "keydown");
    assert_eq!(Action::Release.to_string(), "keyup");
}

#[test]
fn dispatch_expands_button() {
    let mut u = ButtonUniform::new();
    assert_eq!(u.dispatch(Button::Z, Action::Push), vec![(b'x', Action::Push), (b'y', Action::Push)]);
    assert_eq!(u.dispatch(Button::X, Action::Push), vec![]);
    assert_eq!(u.dispatch(Button::X, Action::Release), vec![]);
    assert_eq!(u.dispatch(Button::Y, Action::Release), vec![(b'y', Action::Release)]);
    assert_eq!(u.held_symbols(), vec![b'x']);
}
