use vstd::prelude::*;
use crate::error::{ApiError, ResponseMessage, status_of, error_message_of, uploaded_message};
use crate::image::{Image, ImageError, PREVIEW_WIDTH, PREVIEW_HEIGHT, file_name_of, preview_name, validation};

verus! {

/// Where a file is stored: directly under the storage root, or in its `preview`
/// directory.
#[derive(Clone, Copy, Debug, PartialEq, Eq, Structural)]
pub enum Category {
    Original,
    Preview,
}

/// The directory, under the storage root, that holds the files of a category.
pub open spec fn subdirectory_of(c: Category) -> Option<Seq<char>> {
    match c {
        Category::Original => None,
        Category::Preview => Some("preview"@),
    }
}

impl Category {
    /// The directory under the storage root for this category: none for originals,
    /// `preview` for previews.
    pub fn subdirectory(&self) -> (r: Option<&'static str>)
        ensures
            match r {
                None => subdirectory_of(*self) is None,
                Some(d) => subdirectory_of(*self) == Some(d@),
            },
    {
        match self {
            Category::Original => None,
            Category::Preview => Some("preview"),
        }
    }
}

/// What the file system answered to a create-only write.
#[derive(Debug)]
pub enum StoreOutcome {
    /// The file was created and the bytes written.
    Written,
    /// A file already stood at that path; nothing was written.
    AlreadyExists,
    /// Another fault, with the system's message.
    Failed(String),
}

/// What the pipeline asks the caller to do next for an item.
#[derive(Debug)]
pub enum Action {
    /// Create `file_name` in `category`, failing if it exists, and write `data` to it.
    Store { category: Category, file_name: String, data: Vec<u8> },
    /// Resize `data` to `width` x `height` pixels.
    Resize { data: Vec<u8>, width: u32, height: u32 },
    /// The item is done; this is its entry in the batch's response.
    Report(ResponseMessage),
}

/// What the caller hands back after performing an action.
#[derive(Debug)]
pub enum Event {
    /// The answer to a `Store`.
    Stored(StoreOutcome),
    /// The answer to a `Resize`: the resized bytes, or `None` where the resizer could
    /// not decode the image.
    Resized(Option<Vec<u8>>),
}

/// Where an item stands in its pipeline.
#[derive(Debug)]
pub enum ItemState {
    /// The original is being stored.
    StoringOriginal(Image),
    /// The original is stored; its preview is being made.
    Resizing(Image),
    /// The preview (second) of the original (first) is being stored.
    StoringPreview(Image, Image),
    /// The item has been reported.
    Done,
}

/// Whether `event` is an answer to what `state` waits for.
pub open spec fn accepts(state: ItemState, event: Event) -> bool {
    match state {
        ItemState::StoringOriginal(_) => event is Stored,
        ItemState::Resizing(_) => event is Resized,
        ItemState::StoringPreview(_, _) => event is Stored,
        ItemState::Done => false,
    }
}

/// The code and message of the report of `e`.
pub open spec fn error_report(e: ApiError) -> (u16, Seq<char>) {
    (status_of(e), error_message_of(e))
}

/// Whether `m` has the code and message of `rep`.
pub open spec fn report_is(m: ResponseMessage, rep: (u16, Seq<char>)) -> bool {
    m.code == rep.0 && m.message@ == rep.1
}

/// Whether `a` is the report with the code and message of `rep`.
pub open spec fn reports(a: Action, rep: (u16, Seq<char>)) -> bool {
    a matches Action::Report(m) && report_is(m, rep)
}

/// Whether `a` reports `e`.
pub open spec fn reports_error(a: Action, e: ApiError) -> bool {
    reports(a, error_report(e))
}

/// Whether `a` asks to store `img` in `category`.
pub open spec fn stores(a: Action, category: Category, img: Image) -> bool {
    a matches Action::Store { category: c, file_name, data } && c == category && file_name@
        == file_name_of(img.spec_name(), img.spec_format()) && data@ == img.spec_data()
}

/// The error that a failed store reports.
pub open spec fn store_error(o: StoreOutcome) -> ApiError {
    match o {
        StoreOutcome::AlreadyExists => ApiError::NameExists,
        StoreOutcome::Failed(m) => ApiError::FileSystemError(m),
        StoreOutcome::Written => ApiError::NameExists,
    }
}

/// The pipeline's transition table, for the events that end an item: the code and
/// message of the item's report when `event` ends the item at `state`, `None` where the
/// item goes on. A failed store ends it with `NameExists` or the file system's error; a
/// resize that fails, or whose bytes are not an image, with that error; a stored preview
/// with the upload report of the original's name.
pub open spec fn step_report(state: ItemState, event: Event) -> Option<(u16, Seq<char>)> {
    match (state, event) {
        (ItemState::StoringOriginal(_), Event::Stored(StoreOutcome::Written)) => None,
        (ItemState::StoringOriginal(_), Event::Stored(o)) => Some(error_report(store_error(o))),
        (ItemState::Resizing(_), Event::Resized(None)) => Some(
            error_report(ApiError::Image(ImageError::PreviewGeneration)),
        ),
        (ItemState::Resizing(_), Event::Resized(Some(bytes))) => match validation(bytes@) {
            Ok(_) => None,
            Err(e) => Some(error_report(ApiError::Image(e))),
        },
        (ItemState::StoringPreview(img, _), Event::Stored(StoreOutcome::Written)) => Some(
            (200u16, uploaded_message(img.spec_name())),
        ),
        (ItemState::StoringPreview(_, _), Event::Stored(o)) => Some(error_report(store_error(o))),
        _ => None,
    }
}

/// The pipeline's transition table, for the events after which an item goes on: a stored
/// original is resized to the preview size; resized bytes that are an image become the
/// preview `preview_{name}`, which is stored next.
pub open spec fn step_next(state: ItemState, event: Event, next: ItemState, a: Action) -> bool {
    match (state, event) {
        (ItemState::StoringOriginal(img), Event::Stored(StoreOutcome::Written)) => {
            &&& next == ItemState::Resizing(img)
            &&& a matches Action::Resize { data, width, height }
            &&& data@ == img.spec_data() && width == 100 && height == 100
        },
        (ItemState::Resizing(img), Event::Resized(Some(bytes))) => {
            &&& next matches ItemState::StoringPreview(i, p)
            &&& i == img
            &&& p.spec_name() == preview_name(img.spec_name())
            &&& p.spec_data() == bytes@
            &&& validation(bytes@) == Ok::<_, ImageError>(p.spec_format())
            &&& stores(a, Category::Preview, p)
        },
        _ => false,
    }
}

fn store_action(category: Category, img: &Image) -> (a: Action)
    ensures
        stores(a, category, *img),
{
    let data = img.data().clone();
    proof {
        assert(data@ =~= img.spec_data());
    }
    Action::Store { category, file_name: img.file_name(), data }
}

fn report_error(e: ApiError) -> (r: (ItemState, Action))
    ensures
        r.0 is Done,
        reports_error(r.1, e),
{
    (ItemState::Done, Action::Report(ResponseMessage::from_error(&e)))
}

fn store_failure(o: StoreOutcome) -> (r: (ItemState, Action))
    requires
        !(o is Written),
    ensures
        r.0 is Done,
        reports_error(r.1, store_error(o)),
{
    match o {
        StoreOutcome::Failed(m) => report_error(ApiError::FileSystemError(m)),
        _ => report_error(ApiError::NameExists),
    }
}

/// Begins the pipeline of an extracted item: an image is first stored as an original;
/// an extraction or validation error is reported at once.
pub fn start(item: Result<Image, ApiError>) -> (r: (ItemState, Action))
    ensures
        match item {
            Ok(img) => r.0 == ItemState::StoringOriginal(img) && stores(r.1, Category::Original, img),
            Err(e) => r.0 is Done && reports_error(r.1, e),
        },
{
    match item {
        Ok(img) => {
            let a = store_action(Category::Original, &img);
            (ItemState::StoringOriginal(img), a)
        },
        Err(e) => report_error(e),
    }
}

/// Advances an item's pipeline by the answer to its last action. A stored original is
/// resized to the preview size; the resized bytes become the preview, which is stored;
/// a stored preview completes the item. The first failure ends the item with its report.
pub fn step(state: ItemState, event: Event) -> (r: (ItemState, Action))
    requires
        accepts(state, event),
    ensures
        match step_report(state, event) {
            Some(rep) => r.0 is Done && reports(r.1, rep),
            None => step_next(state, event, r.0, r.1),
        },
{
    match state {
        ItemState::StoringOriginal(img) => match event {
            Event::Stored(StoreOutcome::Written) => {
                let data = img.data().clone();
                proof {
                    assert(data@ =~= img.spec_data());
                }
                (ItemState::Resizing(img), Action::Resize { data, width: PREVIEW_WIDTH, height: PREVIEW_HEIGHT })
            },
            Event::Stored(o) => store_failure(o),
            Event::Resized(_) => unreached(),
        },
        ItemState::Resizing(img) => match event {
            Event::Resized(resized) => match img.generate_preview(resized) {
                Ok(p) => {
                    let a = store_action(Category::Preview, &p);
                    (ItemState::StoringPreview(img, p), a)
                },
                Err(e) => report_error(ApiError::Image(e)),
            },
            Event::Stored(_) => unreached(),
        },
        ItemState::StoringPreview(img, p) => match event {
            Event::Stored(StoreOutcome::Written) => (
                ItemState::Done,
                Action::Report(ResponseMessage::uploaded(img.name())),
            ),
            Event::Stored(o) => store_failure(o),
            Event::Resized(_) => unreached(),
        },
        ItemState::Done => unreached(),
    }
}

} // verus!
