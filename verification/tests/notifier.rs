use crossbeam_channel::unbounded;
use rebase_core::notifier::Notifier;
use rebase_core::status::Status;

#[test]
fn busy() {
    let (sender, receiver) = unbounded();
    let notifier = Notifier::new("name", sender);
    notifier.busy();
    let (name, status) = receiver.recv().unwrap();
    assert_eq!(name, "name");
    assert_eq!(status, Status::Busy);
}

#[test]
fn request_pause() {
    let (sender, receiver) = unbounded();
    let notifier = Notifier::new("name", sender);
    notifier.request_pause();
    let (name, status) = receiver.recv().unwrap();
    assert_eq!(name, "name");
    assert_eq!(status, Status::RequestPause);
}

#[test]
fn request_resume() {
    let (sender, receiver) = unbounded();
    let notifier = Notifier::new("name", sender);
    notifier.request_resume();
    let (name, status) = receiver.recv().unwrap();
    assert_eq!(name, "name");
    assert_eq!(status, Status::RequestResume);
}

#[test]
fn request_end() {
    let (sender, receiver) = unbounded();
    let notifier = Notifier::new("name", sender);
    notifier.request_end();
    let (name, status) = receiver.recv().unwrap();
    assert_eq!(name, "name");
    assert_eq!(status, Status::RequestEnd);
}

#[test]
fn error() {
    let (sender, receiver) = unbounded();
    let notifier = Notifier::new("name", sender);
    notifier.error(String::from("Error"));
    let (name, status) = receiver.recv().unwrap();
    assert_eq!(name, "name");
    assert_eq!(status, Status::Error(String::from("Error")));
}

#[test]
fn end() {
    let (sender, receiver) = unbounded();
    let notifier = Notifier::new("name", sender);
    notifier.end();
    let (name, status) = receiver.recv().unwrap();
    assert_eq!(name, "name");
    assert_eq!(status, Status::Ended);
}

#[test]
fn wait() {
    let (sender, receiver) = unbounded();
    let notifier = Notifier::new("name", sender);
    notifier.wait();
    let (name, status) = receiver.recv().unwrap();
    assert_eq!(name, "name");
    assert_eq!(status, Status::Waiting);
}

#[test]
fn per_sender_order_preserved() {
    let (sender, receiver) = unbounded();
    let notifier = Notifier::new("name", sender);
    notifier.busy();
    notifier.wait();
    notifier.end();
    assert_eq!(receiver.recv().unwrap().1, Status::Busy);
    assert_eq!(receiver.recv().unwrap().1, Status::Waiting);
    assert_eq!(receiver.recv().unwrap().1, Status::Ended);
}
