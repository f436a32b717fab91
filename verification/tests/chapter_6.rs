use the_book::chapter_6;
use the_book::chapter_6::dice_roll::{dice_rolling, judge, Roll};
use the_book::chapter_6::ip_addr::{self, IpAddr};
use the_book::chapter_6::msg::{self, Message};

#[test]
fn three_explodes_and_five_rewards() {
    assert_eq!(judge(3), Roll::Explode);
    assert_eq!(judge(5), Roll::Reward);
}

#[test]
fn any_other_number_rolls_again() {
    assert_eq!(judge(1), Roll::Retry(1));
    assert_eq!(judge(2), Roll::Retry(2));
    assert_eq!(judge(4), Roll::Retry(4));
    assert_eq!(judge(0), Roll::Retry(0));
    assert_eq!(judge(255), Roll::Retry(255));
}

#[test]
fn rolls_speak_to_the_player() {
    assert_eq!(Roll::Explode.message(), "You're dead!");
    assert_eq!(Roll::Reward.message(), "You win!");
    assert_eq!(Roll::Retry(4).message(), "You rolled 4. Try again!");
    assert_eq!(Roll::Retry(120).message(), "You rolled 120. Try again!");
}

#[test]
fn the_die_has_five_sides() {
    for _ in 0..500 {
        match dice_rolling() {
            Roll::Explode | Roll::Reward => {}
            Roll::Retry(val) => assert!(val == 1 || val == 2 || val == 4),
        }
    }
}

#[test]
fn rolls_differ() {
    let first = dice_rolling();
    assert!((0..2000).any(|_| dice_rolling() != first));
}

#[test]
fn the_loopback_addresses() {
    let (home, loopback) = ip_addr::run();
    assert_eq!(home, IpAddr::V4("127.0.0.1".to_string()));
    assert_eq!(loopback, IpAddr::V6("::1".to_string()));
    assert_eq!(chapter_6::run(), (home, loopback));
}

#[test]
fn messages_are_handled() {
    Message::Quit.call();
    Message::Move { x: 1, y: -1 }.call();
    Message::Write("hello".to_string()).call();
    Message::ChangeColor(0, 128, 255).call();
    msg::run();
}
