use gpui_mobile_core::android::document_picker as android;
use gpui_mobile_core::ios::document_picker::{
    create_picker, did_cancel, did_pick, selection, PickedUrl, PickerRequest, PickerSlot,
    PickerStep, AS_COPY, PRESENTATION_STYLE,
};
use gpui_mobile_core::path_prompt::{PathPromptOptions, PromptError};

fn options(files: bool, directories: bool, multiple: bool) -> PathPromptOptions {
    PathPromptOptions {
        files,
        directories,
        multiple,
        prompt: Some("Open".to_string()),
    }
}

fn paths(names: &[&str]) -> Vec<String> {
    names.iter().map(|name| name.to_string()).collect()
}

#[test]
fn android_prompts_for_files_only() {
    assert_eq!(android::prompt(&options(true, false, true)), Ok(true));
    assert_eq!(android::prompt(&options(true, false, false)), Ok(false));
    for (files, directories) in [(false, false), (false, true), (true, true)] {
        assert_eq!(
            android::prompt(&options(files, directories, true)),
            Err(PromptError::FilesOnly)
        );
    }
}

#[test]
fn android_picks_nothing_as_cancelled() {
    assert_eq!(android::pick_files(Ok(None)), Ok(None));
    assert_eq!(android::pick_files(Ok(Some(vec![]))), Ok(None));
    assert_eq!(
        android::pick_files(Ok(Some(paths(&["/a", "/b"])))),
        Ok(Some(paths(&["/a", "/b"])))
    );
    assert_eq!(
        android::pick_files(Err("no activity".to_string())),
        Err("no activity".to_string())
    );
}

#[test]
fn ios_selects_files_or_directories() {
    assert_eq!(
        create_picker(&options(true, false, true)),
        Ok(PickerRequest {
            content_type: "public.item",
            multiple: true,
            title: Some("Open".to_string()),
        })
    );
    let mut folder = options(false, true, false);
    folder.prompt = None;
    assert_eq!(
        create_picker(&folder),
        Ok(PickerRequest { content_type: "public.folder", multiple: false, title: None })
    );
    assert_eq!(
        create_picker(&options(false, false, false)),
        Err(PromptError::NothingToSelect)
    );
    assert_eq!(
        create_picker(&options(true, true, false)),
        Err(PromptError::MixedSelection)
    );
}

#[test]
fn one_picker_at_a_time() {
    let mut slot = PickerSlot::new();
    assert!(slot.prompt(&options(true, false, false)).is_ok());
    assert_eq!(
        slot.prompt(&options(true, true, false)),
        Err(PromptError::MixedSelection)
    );
    slot.present(0x10, "asker");
    assert_eq!(
        slot.prompt(&options(true, true, false)),
        Err(PromptError::AlreadyOpen)
    );
    assert_eq!(did_cancel(&mut slot, 0x20), None);
    assert_eq!(did_cancel(&mut slot, 0x10), Some(("asker", Ok(None))));
    assert_eq!(did_cancel(&mut slot, 0x10), None);
    assert!(slot.prompt(&options(true, false, false)).is_ok());
}

#[test]
fn completing_another_picker_changes_nothing() {
    let mut slot = PickerSlot::new();
    slot.present(0x10, 5);
    assert_eq!(slot.complete(0x11), None);
    assert_eq!(slot.complete(0x10), Some(5));
    assert_eq!(slot.complete(0x10), None);
}

#[test]
fn a_selection_is_answered_with_its_paths() {
    let url = |path: &str| PickedUrl::Path(path.to_string());
    let mut slot = PickerSlot::new();
    slot.present(0x10, "asker");
    assert_eq!(
        did_pick(&mut slot, 0x10, vec![url("/a b"), url("/c")]),
        Some(("asker", Ok(Some(paths(&["/a b", "/c"])))))
    );
    assert_eq!(did_pick(&mut slot, 0x10, vec![url("/a")]), None);
    assert_eq!(selection(vec![]), Ok(None));
    assert_eq!(
        selection(vec![url("/a"), PickedUrl::InvalidPath, PickedUrl::NoPath]),
        Err(PromptError::InvalidFilePath)
    );
    assert_eq!(
        selection(vec![PickedUrl::NoPath, PickedUrl::InvalidPath]),
        Err(PromptError::NoFilePath)
    );
}

#[test]
fn the_picker_is_set_up_step_by_step() {
    let mut step = PickerStep::Window;
    for reply in [Some(1), Some(2), Some(3), Some(4), None, Some(5), Some(6)] {
        step = step.advance(reply).unwrap();
    }
    assert_eq!(step, PickerStep::Ready { presenter: 4, picker: 5, delegate: 6 });
    assert_eq!(step.advance(None), Ok(step));
}

#[test]
fn every_missing_object_has_its_error() {
    for (step, error) in [
        (PickerStep::Window, PromptError::NoWindow),
        (PickerStep::Root { window: 1 }, PromptError::NoViewController),
        (PickerStep::Picker { presenter: 2 }, PromptError::NoPicker),
        (PickerStep::Delegate { presenter: 2, picker: 5 }, PromptError::NoDelegate),
    ] {
        assert_eq!(step.advance(None), Err(error));
    }
    assert_eq!(
        PickerStep::Presented { presenter: 2 }.advance(None),
        Ok(PickerStep::Picker { presenter: 2 })
    );
}

#[test]
fn errors_in_words() {
    for (error, message) in [
        (
            PromptError::FilesOnly,
            "Android file prompts support files only; directory URIs are not filesystem paths",
        ),
        (PromptError::AlreadyOpen, "A document picker is already open"),
        (PromptError::NothingToSelect, "The file prompt must allow files or directories"),
        (
            PromptError::MixedSelection,
            "iOS does not support mixed file and directory selection",
        ),
        (PromptError::NoWindow, "No active iOS window to present a document picker"),
        (
            PromptError::NoViewController,
            "No iOS view controller to present a document picker",
        ),
        (PromptError::NoPicker, "Could not create document picker"),
        (PromptError::NoDelegate, "Could not create document picker delegate"),
        (PromptError::NoFilePath, "Document picker returned a URL without a file path"),
        (PromptError::InvalidFilePath, "Document picker returned an invalid file path"),
    ] {
        assert_eq!(error.message(), message);
    }
}

#[test]
fn the_picker_copies_and_fills_the_screen() {
    assert_eq!((AS_COPY, PRESENTATION_STYLE), (true, 0));
}
