use image_api::{
    start, step, Action, ApiError, Batch, Category, Event, Image, ImageError, ItemState,
    JsonMessage, ResponseMessage, StoreOutcome, extract_json,
};

const PNG_1X1: &[u8] = &[
    137, 80, 78, 71, 13, 10, 26, 10, 0, 0, 0, 13, 73, 72, 68, 82, 0, 0, 0, 1, 0, 0, 0, 1, 8, 6, 0,
    0, 0, 31, 21, 196, 137, 0, 0, 0, 4, 115, 66, 73, 84, 8, 8, 8, 8, 124, 8, 100, 136, 0, 0, 0, 11,
    73, 68, 65, 84, 8, 153, 99, 248, 15, 4, 0, 9, 251, 3, 253, 227, 85, 242, 156, 0, 0, 0, 0, 73,
    69, 78, 68, 174, 66, 96, 130,
];

const PNG_1X1_BASE64: &str = "iVBORw0KGgoAAAANSUhEUgAAAAEAAAABCAYAAAAfFcSJAAAABHNCSVQICAgIfAhkiAAAAAtJREFUCJlj+A8EAAn7A/3jVfKcAAAAAElFTkSuQmCC";

fn png(name: &str) -> Image {
    Image::create(name.to_string(), PNG_1X1.to_vec()).unwrap()
}

#[test]
fn status_codes_follow_error_kind() {
    assert_eq!(ApiError::Base64Decoding.status_code(), 400);
    assert_eq!(ApiError::LocalhostUrl.status_code(), 400);
    assert_eq!(ApiError::MalformedPart.status_code(), 400);
    assert_eq!(ApiError::Image(ImageError::UnsupportedImageFormat).status_code(), 400);
    assert_eq!(ApiError::NameExists.status_code(), 400);
    assert_eq!(ApiError::FetchFailed("x".to_string()).status_code(), 500);
    assert_eq!(ApiError::Image(ImageError::PreviewGeneration).status_code(), 500);
    assert_eq!(ApiError::FileSystemError("x".to_string()).status_code(), 500);
}

#[test]
fn descriptions_of_errors() {
    assert_eq!(ApiError::Base64Decoding.description(), "Base64 decoding failed");
    assert_eq!(ApiError::LocalhostUrl.description(), "Invalid url. Cannot be localhost");
    assert_eq!(ApiError::Image(ImageError::UnsupportedImageFormat).description(), "Unsupported image format");
    assert_eq!(ApiError::Image(ImageError::PreviewGeneration).description(), "Preview generation failed");
    assert_eq!(ApiError::FileSystemError("disk full".to_string()).description(), "disk full");
}

#[test]
fn error_reports_hide_server_faults() {
    let r = ResponseMessage::from_error(&ApiError::Base64Decoding);
    assert_eq!((r.code, r.message.as_str()), (400, "Base64 decoding failed"));
    let r = ResponseMessage::from_error(&ApiError::FileSystemError("disk full".to_string()));
    assert_eq!((r.code, r.message.as_str()), (500, "Internal server error"));
    let r = ResponseMessage::from_error(&ApiError::NameExists);
    assert_eq!((r.code, r.message.as_str()), (400, "Image name already exists"));
}

#[test]
fn upload_report_names_image() {
    let r = ResponseMessage::uploaded("cat");
    assert_eq!((r.code, r.message.as_str()), (200, "Image cat successfully uploaded"));
    let r = ResponseMessage::new(201, "made".to_string());
    assert_eq!((r.code, r.message.as_str()), (201, "made"));
}

#[test]
fn image_error_converts_to_api_error() {
    let e: ApiError = ImageError::PreviewGeneration.into();
    assert!(matches!(e, ApiError::Image(ImageError::PreviewGeneration)));
}

#[test]
fn item_pipeline_success() {
    let (state, action) = start(Ok(png("cat")));
    match action {
        Action::Store { category, file_name, data } => {
            assert_eq!(category, Category::Original);
            assert_eq!(file_name, "cat.png");
            assert_eq!(data, PNG_1X1.to_vec());
        }
        other => panic!("unexpected {:?}", other),
    }
    let (state, action) = step(state, Event::Stored(StoreOutcome::Written));
    match action {
        Action::Resize { data, width, height } => {
            assert_eq!(data, PNG_1X1.to_vec());
            assert_eq!((width, height), (100, 100));
        }
        other => panic!("unexpected {:?}", other),
    }
    let (state, action) = step(state, Event::Resized(Some(PNG_1X1.to_vec())));
    match action {
        Action::Store { category, file_name, .. } => {
            assert_eq!(category, Category::Preview);
            assert_eq!(file_name, "preview_cat.png");
        }
        other => panic!("unexpected {:?}", other),
    }
    let (state, action) = step(state, Event::Stored(StoreOutcome::Written));
    assert!(matches!(state, ItemState::Done));
    match action {
        Action::Report(m) => assert_eq!((m.code, m.message.as_str()), (200, "Image cat successfully uploaded")),
        other => panic!("unexpected {:?}", other),
    }
}

#[test]
fn previews_have_their_own_directory() {
    assert_eq!(Category::Original.subdirectory(), None);
    assert_eq!(Category::Preview.subdirectory(), Some("preview"));
}

#[test]
fn item_pipeline_name_collision() {
    let (state, _) = start(Ok(png("cat")));
    let (state, action) = step(state, Event::Stored(StoreOutcome::AlreadyExists));
    assert!(matches!(state, ItemState::Done));
    match action {
        Action::Report(m) => assert_eq!((m.code, m.message.as_str()), (400, "Image name already exists")),
        other => panic!("unexpected {:?}", other),
    }
}

#[test]
fn item_pipeline_resize_failure() {
    let (state, _) = start(Ok(png("cat")));
    let (state, _) = step(state, Event::Stored(StoreOutcome::Written));
    let (_, action) = step(state, Event::Resized(None));
    match action {
        Action::Report(m) => assert_eq!((m.code, m.message.as_str()), (500, "Internal server error")),
        other => panic!("unexpected {:?}", other),
    }
}

#[test]
fn item_pipeline_preview_write_fault() {
    let (state, _) = start(Ok(png("cat")));
    let (state, _) = step(state, Event::Stored(StoreOutcome::Written));
    let (state, _) = step(state, Event::Resized(Some(PNG_1X1.to_vec())));
    let (_, action) = step(state, Event::Stored(StoreOutcome::Failed("denied".to_string())));
    match action {
        Action::Report(m) => assert_eq!(m.code, 500),
        other => panic!("unexpected {:?}", other),
    }
}

#[test]
fn item_pipeline_extraction_error_is_reported_at_once() {
    let (state, action) = start(Err(ApiError::LocalhostUrl));
    assert!(matches!(state, ItemState::Done));
    match action {
        Action::Report(m) => assert_eq!((m.code, m.message.as_str()), (400, "Invalid url. Cannot be localhost")),
        other => panic!("unexpected {:?}", other),
    }
}

// Runs a batch with a storage that accepts every file once and a resizer that
// always answers with a one-pixel PNG.
fn run_batch(items: Vec<Result<Image, ApiError>>, stored: &mut Vec<String>) -> Vec<ResponseMessage> {
    let (mut batch, mut action) = Batch::new(items);
    while let Some(a) = action {
        let event = match a {
            Action::Store { category, file_name, .. } => {
                let key = format!("{:?}/{}", category, file_name);
                if stored.contains(&key) {
                    Event::Stored(StoreOutcome::AlreadyExists)
                } else {
                    stored.push(key);
                    Event::Stored(StoreOutcome::Written)
                }
            }
            Action::Resize { .. } => Event::Resized(Some(PNG_1X1.to_vec())),
            Action::Report(_) => panic!("reports stay inside the batch"),
        };
        action = batch.answer(event);
    }
    batch.into_reports()
}

#[test]
fn json_batch_reports_in_order() {
    let messages = vec![
        JsonMessage { name: "a".to_string(), data: PNG_1X1_BASE64.to_string() },
        JsonMessage { name: "b".to_string(), data: "!!!invalid".to_string() },
        JsonMessage { name: "c".to_string(), data: PNG_1X1_BASE64.to_string() },
    ];
    let mut stored = vec![];
    let reports = run_batch(extract_json(messages), &mut stored);
    assert_eq!(reports.len(), 3);
    assert_eq!((reports[0].code, reports[0].message.as_str()), (200, "Image a successfully uploaded"));
    assert_eq!((reports[1].code, reports[1].message.as_str()), (400, "Base64 decoding failed"));
    assert_eq!((reports[2].code, reports[2].message.as_str()), (200, "Image c successfully uploaded"));
    assert_eq!(stored, vec!["Original/a.png", "Preview/preview_a.png", "Original/c.png", "Preview/preview_c.png"]);
}

#[test]
fn same_name_twice_is_a_collision() {
    let mut stored = vec![];
    let first = run_batch(vec![Ok(png("dup"))], &mut stored);
    let second = run_batch(vec![Ok(png("dup"))], &mut stored);
    assert_eq!(first[0].code, 200);
    assert_eq!((second[0].code, second[0].message.as_str()), (400, "Image name already exists"));
}

#[test]
fn empty_batch_has_no_reports() {
    let (batch, action) = Batch::new(vec![]);
    assert!(action.is_none());
    assert!(batch.into_reports().is_empty());
}

#[test]
fn batch_of_failures_needs_no_outside_work() {
    let (batch, action) = Batch::new(vec![Err(ApiError::Base64Decoding), Err(ApiError::MalformedPart)]);
    assert!(action.is_none());
    let reports = batch.into_reports();
    assert_eq!(reports.len(), 2);
    assert_eq!(reports[0].message, "Base64 decoding failed");
    assert_eq!(reports[1].message, "Malformed multipart field");
}

#[test]
fn sibling_reports_do_not_depend_on_a_failed_item() {
    let with_b = vec![
        JsonMessage { name: "a".to_string(), data: PNG_1X1_BASE64.to_string() },
        JsonMessage { name: "b".to_string(), data: "!!!invalid".to_string() },
        JsonMessage { name: "c".to_string(), data: PNG_1X1_BASE64.to_string() },
    ];
    let without_b = vec![
        JsonMessage { name: "a".to_string(), data: PNG_1X1_BASE64.to_string() },
        JsonMessage { name: "c".to_string(), data: PNG_1X1_BASE64.to_string() },
    ];
    let mut stored_x = vec![];
    let mut stored_y = vec![];
    let x = run_batch(extract_json(with_b), &mut stored_x);
    let y = run_batch(extract_json(without_b), &mut stored_y);
    assert_eq!((x[0].code, &x[0].message), (y[0].code, &y[0].message));
    assert_eq!((x[2].code, &x[2].message), (y[1].code, &y[1].message));
    assert_eq!(stored_x, stored_y);
}
