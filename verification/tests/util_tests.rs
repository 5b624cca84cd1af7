use handoff::blog::Post;
use handoff::boxes::LinkedList;
use handoff::boxes::MyBox;
use handoff::enums;
use handoff::generics::MultiPoint;
use handoff::generics::Point;
use handoff::guess::Guess;
use handoff::gui::Button;
use handoff::gui::Screen;
use handoff::gui::SelectBox;
use handoff::largest::largest;
use handoff::largest::largest_ref;
use handoff::next_id_1;
use handoff::next_id_2;
use handoff::options;
use handoff::rectangle;
use handoff::rectangle::Rectangle;
use handoff::routes::route;
use handoff::routes::Route;
use handoff::stats::calc_mode;
use handoff::summary::returns_summarizable;
use handoff::summary::NewsArticle;
use handoff::summary::Summary;
use handoff::summary::Tweet;
use handoff::text;
use handoff::workout::generate_workout;
use handoff::workout::Cacher;
use handoff::workout::Memo;
use handoff::workout::WorkoutPlan;

#[test]
fn guess_in_range() {
    let g = Guess::new(50);
    assert_eq!(g.value(), 50);
    assert_eq!(Guess::new(1).value(), 1);
    assert_eq!(Guess::new(100).value(), 100);
}

#[test]
fn rectangle_geometry() {
    let rect1 = Rectangle { width: 30, height: 50 };
    let rect2 = Rectangle { width: 20, height: 40 };
    let rect3 = Rectangle { width: 60, height: 40 };
    assert_eq!(rect1.area(), 1500);
    assert_eq!(rectangle::area(&rect1), 1500);
    assert!(rect1.can_hold(&rect2));
    assert!(!rect1.can_hold(&rect3));
    let square = Rectangle::square(10);
    assert_eq!(square.width, 10);
    assert_eq!(square.height, 10);
}

#[test]
fn post_workflow() {
    let mut post = Post::new();

    post.add_text("I ate a salad for lunch today");
    assert_eq!("", post.content());

    post.request_review();
    assert_eq!("", post.content());

    post.approve();
    assert_eq!("I ate a salad for lunch today", post.content());
}

#[test]
fn screen_runs_components() {
    let buttons = Screen {
        components: vec![
            Button { width: 50, height: 20, label: String::from("OK") },
            Button { width: 40, height: 20, label: String::from("Cancel") },
        ],
    };
    buttons.run();
    let boxes = Screen {
        components: vec![
            SelectBox {
                width: 200,
                height: 50,
                options: vec![String::from("Yes"), String::from("Maybe"), String::from("No")],
            },
        ],
    };
    boxes.run();
}

#[test]
fn summaries() {
    let tweet = Tweet {
        username: String::from("horse_ebooks"),
        content: String::from("of course, as you probably already know, people"),
        reply: false,
        retweet: false,
    };
    assert_eq!(tweet.summarize_author(), "@horse_ebooks");
    assert_eq!(tweet.summarize(), "horse_ebooks: of course, as you probably already know, people");

    let article = NewsArticle {
        headline: String::from("Penguins win the Stanley Cup Championship!"),
        location: String::from("Pittsburgh, PA, USA"),
        author: String::from("Iceburgh"),
        content: String::from("The Pittsburgh Penguins once again are the best hockey team in the NHL."),
    };
    assert_eq!(article.summarize_author(), "@Iceburgh");
    assert_eq!(article.summarize(), "(Read more from @Iceburgh...)");

    let summarizable = returns_summarizable();
    assert_eq!(summarizable.summarize_author(), "@horse_ebooks");
}

#[test]
fn text_helpers() {
    assert_eq!(text::greet1(), "hello world!");
    assert_eq!(text::greet2(), "hello world!");
    assert_eq!(text::greet3(), "hello world!");

    let mut s = String::from("hello");
    text::change(&mut s);
    assert_eq!(s, "hello, world");

    let first = text::first_word(&s);
    assert_eq!(first, "hello,");
    let whole = String::from("oneword");
    assert_eq!(text::first_word(&whole), "oneword");

    assert_eq!(text::longest("hello", "world!"), "world!");
    assert_eq!(text::longest("same", "size"), "same");

    assert_eq!(text::reverse("hello"), "olleh");
    assert_eq!(text::reverse2("hello"), "olleh");

    let excerpt = text::ImportantExcerpt { part: "Call me Ishmael" };
    assert_eq!(excerpt.announce_and_return_part("I have a message!"), "Call me Ishmael");
}

#[test]
fn workout_plans() {
    assert_eq!(generate_workout(10, 7), WorkoutPlan::Exercise { pushups: 10, situps: 10 });
    assert_eq!(generate_workout(30, 3), WorkoutPlan::Rest);
    assert_eq!(generate_workout(30, 7), WorkoutPlan::Run { minutes: 30 });
}

#[test]
fn cacher_replays_first_result() {
    let mut cacher = Cacher::new(|num| num * 2);
    assert_eq!(cacher.value(1), 2);
    // The single-slot cache replays the first result, even for another
    // argument.
    assert_eq!(cacher.value(10), 2);
}

#[test]
fn memo_remembers_per_argument() {
    let mut m = Memo::new(|num| num * 2);
    assert_eq!(m.value(1), 2);
    assert_eq!(m.value(1), 2);
    assert_eq!(m.value(2), 4);
    assert_eq!(m.value(2), 4);
}

#[test]
fn mode_of_list() {
    let mode = calc_mode(&vec![1, 1, 4, 6, 4, 2, 4, 2, 1, 3, 5, 6]);
    // Both 1 and 4 occur three times; the scan settles on the one seen
    // first.
    assert_eq!(mode, 1);
    assert_eq!(calc_mode(&Vec::new()), 0);
    assert_eq!(calc_mode(&vec![7, 8, 8]), 8);
}

#[test]
fn next_id_counting_up() {
    assert_eq!(next_id_1::next_id(&[0, 1, 2, 4, 5]), 3);
    assert_eq!(next_id_1::next_id(&[0, 1, 2, 3, 4, 5, 6, 7, 8, 9, 10]), 11);
    assert_eq!(next_id_1::next_id(&[1, 2, 0, 2, 3]), 4);
}

#[test]
fn next_id_marking_pass() {
    assert_eq!(next_id_2::next_id(&[0, 1, 2, 4, 5]), 3);
    assert_eq!(next_id_2::next_id(&[0, 1, 2, 3, 4, 5, 6, 7, 8, 9, 10]), 11);
    assert_eq!(next_id_2::next_id(&[1, 2, 0, 2, 3]), 4);
}

#[test]
fn largest_of_lists() {
    let number_list = vec![34, 50, 25, 100, 65];
    assert_eq!(largest(&number_list), 100);
    let char_list = vec!['y', 'm', 'a', 'q'];
    assert_eq!(largest(&char_list), 'y');
    let string_list = vec!["hello", "world"];
    assert_eq!(*largest_ref(&string_list), "world");
    assert_eq!(*largest_ref(&number_list), 100);
}

#[test]
fn request_routing() {
    assert_eq!(route("GET", "/"), Route::Index);
    assert_eq!(route("GET", "/echo"), Route::Echo);
    assert_eq!(route("GET", "/async"), Route::AsyncStream);
    assert_eq!(route("GET", "/data"), Route::Data);
    assert_eq!(route("GET", "/missing"), Route::NotFound);
    assert_eq!(route("POST", "/"), Route::NotFound);
}

#[test]
fn message_calls() {
    enums::run();
    let m = enums::Message::Write(String::from("hello"));
    assert_eq!(m.call(), "hello");
    let m = enums::Message::Quit;
    assert_eq!(m.call(), "");
}

#[test]
fn option_walkthrough() {
    options::run();
}

#[test]
fn linked_list_growth() {
    let mut list = LinkedList::new(1);
    LinkedList::add(&mut list, 2);
    LinkedList::add(&mut list, 3);
    assert_eq!(list.length(), 3);
    assert_eq!(*list.first(), 1);
    let last = LinkedList::find_end(&list);
    assert_eq!(*last.first(), 3);
    assert_eq!(last.length(), 1);
}

#[test]
fn my_box_wraps() {
    let b = MyBox::new(5);
    assert_eq!(*b.get(), 5);
    assert_eq!(b.0, 5);
}

#[test]
fn points_and_mixup() {
    let p = Point { x: 5, y: 10 };
    assert_eq!(*p.x(), 5);
    let p = MultiPoint { x: 5, y: 10.4 };
    let q = MultiPoint { x: "hello", y: 'c' };
    let mixed = p.mixup(q);
    assert_eq!(mixed.x, 5);
    assert_eq!(mixed.y, 'c');
}
