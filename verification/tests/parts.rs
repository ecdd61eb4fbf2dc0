use image_buffer::buffer::BufferingData;
use image_buffer::error_view::ErrorView;
use image_buffer::loader::{load_image, ImageRead, LoadError, LoadStage};
use image_buffer::status::{is_ready, is_terminal, COMPLETED, ERRORED, IDLE, PROCESSING, SLEEPING};
use image_buffer::worker::Action;

#[test]
fn the_status_values_are_the_documented_ones() {
    assert_eq!(IDLE, 0);
    assert_eq!(PROCESSING, 1);
    assert_eq!(COMPLETED, 2);
    assert_eq!(ERRORED, 3);
    assert_eq!(SLEEPING, 4);
}

#[test]
fn only_completed_and_errored_end_a_request() {
    assert!(!is_terminal(IDLE));
    assert!(!is_terminal(PROCESSING));
    assert!(is_terminal(COMPLETED));
    assert!(is_terminal(ERRORED));
    assert!(!is_terminal(SLEEPING));
    assert!(!is_terminal(5));
}

#[test]
fn only_completed_lets_a_reader_in() {
    assert!(!is_ready(IDLE));
    assert!(!is_ready(PROCESSING));
    assert!(is_ready(COMPLETED));
    assert!(!is_ready(ERRORED));
    assert!(!is_ready(SLEEPING));
}

#[test]
fn a_new_buffer_is_empty_and_idle() {
    let buffer = BufferingData::new();
    assert_eq!(buffer.data.0, "");
    assert!(buffer.data.1.is_empty());
    assert_eq!(buffer.state, IDLE);
    assert_eq!(buffer.image(), None);
}

#[test]
fn a_complete_read_replaces_the_bytes() {
    let mut data: Vec<u8> = vec![1, 2, 3];
    let result = load_image(ImageRead::Complete(vec![4, 5]), &mut data);
    assert_eq!(result, Ok(()));
    assert_eq!(data, vec![4, 5]);
}

#[test]
fn an_empty_image_is_a_complete_read() {
    let mut data: Vec<u8> = vec![1, 2, 3];
    let result = load_image(ImageRead::Complete(Vec::new()), &mut data);
    assert_eq!(result, Ok(()));
    assert!(data.is_empty());
}

#[test]
fn a_failed_open_keeps_the_bytes() {
    let mut data: Vec<u8> = vec![1, 2, 3];
    let result = load_image(ImageRead::OpenFailed(String::from("file not found")), &mut data);
    assert_eq!(
        result,
        Err(LoadError {
            stage: LoadStage::Open,
            message: String::from("unable to open image: file not found"),
        })
    );
    assert_eq!(data, vec![1, 2, 3]);
}

#[test]
fn a_failed_read_is_worded_like_a_failed_open() {
    let mut data: Vec<u8> = vec![1, 2, 3];
    let result = load_image(ImageRead::ReadFailed(String::from("reached EOF prematurely")), &mut data);
    assert_eq!(
        result,
        Err(LoadError {
            stage: LoadStage::Read,
            message: String::from("unable to open image: reached EOF prematurely"),
        })
    );
    assert_eq!(data, vec![1, 2, 3]);
}

#[test]
fn a_failure_without_a_cause_keeps_the_opening() {
    let mut data: Vec<u8> = Vec::new();
    let result = load_image(ImageRead::OpenFailed(String::new()), &mut data);
    assert_eq!(
        result,
        Err(LoadError { stage: LoadStage::Open, message: String::from("unable to open image: ") })
    );
}

#[test]
fn a_load_only_publishes_its_status() {
    let mut buffer = BufferingData { data: (String::from("/old.img"), vec![1, 2]), state: COMPLETED };
    let line = buffer.apply(&Action::Load { status: PROCESSING, path: String::from("/new.img") });
    assert_eq!(line, None);
    assert_eq!(buffer, BufferingData { data: (String::from("/old.img"), vec![1, 2]), state: PROCESSING });
}

#[test]
fn a_finish_stores_the_name_and_the_status() {
    let mut buffer = BufferingData { data: (String::from("/old.img"), vec![1, 2]), state: PROCESSING };
    let line = buffer.apply(&Action::Finish {
        status: COMPLETED,
        name: Some(String::from("/new.img")),
        diagnostic: None,
    });
    assert_eq!(line, None);
    assert_eq!(buffer, BufferingData { data: (String::from("/new.img"), vec![1, 2]), state: COMPLETED });

    let line = buffer.apply(&Action::Finish {
        status: ERRORED,
        name: None,
        diagnostic: Some(String::from("popsicle-gtk: image loading error: unable to open image: x")),
    });
    assert_eq!(line, Some(String::from("popsicle-gtk: image loading error: unable to open image: x")));
    assert_eq!(buffer, BufferingData { data: (String::from("/new.img"), vec![1, 2]), state: ERRORED });
}

#[test]
fn the_error_page_starts_without_a_description() {
    let page = ErrorView::new();
    assert_eq!(page.view.icon, "dialog-error");
    assert_eq!(page.view.topic, "Critical Error Occurred");
    assert_eq!(page.view.description, "");
}
