use week_labeler::labels::WeekLabel;
use week_labeler::request::{LabelBody, Method, Request};

#[test]
fn lookup_request() {
    let request = Request::lookup("acme/widgets");
    assert_eq!(request.method, Method::Get);
    assert_eq!(request.url, "https://api.github.com/repos/acme/widgets");
    assert!(request.body.is_none());
}

#[test]
fn page_requests() {
    assert_eq!(
        Request::org_page("acme", 1).url,
        "https://api.github.com/orgs/acme/repos?per_page=100&page=1"
    );
    assert_eq!(
        Request::org_page("acme", 12).url,
        "https://api.github.com/orgs/acme/repos?per_page=100&page=12"
    );
    assert_eq!(
        Request::user_page(3).url,
        "https://api.github.com/user/repos?per_page=100&page=3"
    );
    assert_eq!(Request::user_page(3).method, Method::Get);
    assert!(Request::org_page("acme", 1).body.is_none());
}

#[test]
fn create_request_carries_the_label() {
    let label = WeekLabel::new(2025, 7);
    let request = Request::create("acme", "widgets", &label);
    assert_eq!(request.method, Method::Post);
    assert_eq!(request.url, "https://api.github.com/repos/acme/widgets/labels");
    let body = request.body.unwrap();
    assert_eq!(body.name, "week-2025-07");
    assert_eq!(body.color, "99d641");
    assert_eq!(body.description, "ISO week week-2025-07");
}

#[test]
fn update_request_addresses_the_label_and_carries_the_same_body() {
    let label = WeekLabel::new(2025, 7);
    let create = Request::create("acme", "widgets", &label);
    let update = Request::update("acme", "widgets", &label);
    assert_eq!(update.method, Method::Patch);
    assert_eq!(update.url, "https://api.github.com/repos/acme/widgets/labels/week-2025-07");
    let (a, b) = (create.body.unwrap(), update.body.unwrap());
    assert_eq!(a.name, b.name);
    assert_eq!(a.color, b.color);
    assert_eq!(a.description, b.description);
}

#[test]
fn body_of_label_copies_its_fields() {
    let label = WeekLabel::new(2026, 52);
    let body = LabelBody::of_label(&label);
    assert_eq!(body.name, label.name);
    assert_eq!(body.color, label.color);
    assert_eq!(body.description, label.description);
}
