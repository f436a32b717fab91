use the_book::chapter_5::person::{self, build_new_user, User};
use the_book::chapter_5::rectangle::{self, Rectangle, Tour};

#[test]
fn area_is_width_times_height() {
    assert_eq!(Rectangle { width: 10, height: 4 }.area(), 40);
    assert_eq!(Rectangle { width: 0, height: 9 }.area(), 0);
    assert_eq!(Rectangle { width: 65535, height: 65537 }.area(), u32::MAX);
}

#[test]
fn rotate_swaps_the_sides() {
    let mut r = Rectangle { width: 10, height: 4 };
    r.rotate();
    assert_eq!(r, Rectangle { width: 4, height: 10 });
    Rectangle::rotate(&mut r);
    assert_eq!(r, Rectangle { width: 10, height: 4 });
}

#[test]
fn fitting_needs_both_sides_smaller() {
    let b = Rectangle { width: 5, height: 12 };
    assert!(!Rectangle { width: 10, height: 4 }.can_fit_inside(&b));
    assert!(Rectangle { width: 4, height: 10 }.can_fit_inside(&b));
    assert!(!Rectangle { width: 5, height: 11 }.can_fit_inside(&b));
    assert!(!Rectangle { width: 4, height: 12 }.can_fit_inside(&b));
    assert!(!b.can_fit_inside(&b));
}

#[test]
fn the_tour_of_the_rectangles() {
    assert_eq!(
        rectangle::run(),
        Tour {
            area: 40,
            a: Rectangle { width: 10, height: 4 },
            b: Rectangle { width: 5, height: 12 },
            fits: false,
            turned: Rectangle { width: 4, height: 10 },
            fits_turned: true,
            turned_back: Rectangle { width: 10, height: 4 },
        }
    );
}

#[test]
fn a_new_user_is_active() {
    let user = build_new_user("alecia@dpadllc.com".to_string(), "Alecia".to_string());
    assert_eq!(
        user,
        User {
            active: true,
            name: "Alecia".to_string(),
            email: "alecia@dpadllc.com".to_string()
        }
    );
    assert_eq!(user.greet(), "Hello, my name is Alecia");
}

#[test]
fn the_users_of_the_demonstration() {
    let (new_user, copied_user) = person::run();
    assert_eq!(
        new_user,
        User {
            active: true,
            name: "Alecia".to_string(),
            email: "alecia@dpadllc.com".to_string()
        }
    );
    assert_eq!(
        copied_user,
        User { active: false, name: "D-Pad".to_string(), email: "dpad@dpadllc.com".to_string() }
    );
    assert_eq!(copied_user.greet(), "Hello, my name is D-Pad");
}
