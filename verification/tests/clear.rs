//! Clear-operation fill patterns for each background color.

use epd1in54b::color::TriColor;
use epd1in54b::command::Command;
use epd1in54b::driver::Epd1in54b;
use epd1in54b::interface::DisplayInterface;
use epd1in54b::transaction::Transaction;

fn cleared_with(background: TriColor) -> Vec<Transaction> {
    let mut bus = DisplayInterface::new();
    let mut epd = Epd1in54b::new(&mut bus);
    epd.set_background_color(background);
    bus.clear();
    epd.clear_frame(&mut bus).unwrap();
    bus.transactions().clone()
}

#[test]
fn clear_frame_with_chromatic_background() {
    let log = cleared_with(TriColor::Chromatic);
    let tail = log[log.len() - 4..].to_vec();
    assert_eq!(
        tail,
        vec![
            Transaction::Cmd(Command::WriteRam),
            Transaction::DataRepeat(0xFF, 2 * (200 / 8) * 200),
            Transaction::Cmd(Command::WriteRam2),
            Transaction::DataRepeat(0x00, (200 / 8) * 200),
        ]
    );
}

#[test]
fn clear_frame_with_white_background() {
    let log = cleared_with(TriColor::White);
    let tail = log[log.len() - 4..].to_vec();
    assert_eq!(
        tail,
        vec![
            Transaction::Cmd(Command::WriteRam),
            Transaction::DataRepeat(0xFF, (200 / 8) * 200),
            Transaction::Cmd(Command::WriteRam2),
            Transaction::DataRepeat(0x00, (200 / 8) * 200),
        ]
    );
}

#[test]
fn clear_frame_with_black_background() {
    let log = cleared_with(TriColor::Black);
    let tail = log[log.len() - 4..].to_vec();
    assert_eq!(
        tail,
        vec![
            Transaction::Cmd(Command::WriteRam),
            Transaction::DataRepeat(0x00, (200 / 8) * 200),
            Transaction::Cmd(Command::WriteRam2),
            Transaction::DataRepeat(0x00, (200 / 8) * 200),
        ]
    );
}

#[test]
fn clear_frame_preamble_selects_full_window() {
    let log = cleared_with(TriColor::White);
    assert_eq!(log.len(), 15);
    assert_eq!(log[0], Transaction::WaitUntilIdle(false));
    assert_eq!(
        log[1],
        Transaction::WaitUntilIdle(false),
    );
    assert_eq!(
        log[2],
        Transaction::Cmd(Command::SetRamXAddressStartEndPosition)
    );
    assert_eq!(log[3], Transaction::Data(vec![0x00, 0x18]));
}
