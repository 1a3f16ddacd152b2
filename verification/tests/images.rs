use backend::configuration::UploadSettings;
use backend::services::image_service::{ImageService, UploadError, UploadFile};
use std::path::PathBuf;

fn file(size: usize, name: &str, mime: &str) -> UploadFile {
    UploadFile { size, original_name: name.to_string(), mime_type: mime.to_string() }
}

#[test]
fn services_take_their_paths_and_limits_from_settings() {
    let svc = ImageService::new(&UploadSettings::default());
    assert_eq!(svc.upload_dir, PathBuf::from("./uploads"));
    assert_eq!(svc.temp_dir, PathBuf::from("./uploads/temp"));
    assert_eq!(svc.max_files_per_item, 5);

    let svc = ImageService::new_with_path(PathBuf::from("/srv/images"));
    assert_eq!(svc.temp_dir, PathBuf::from("/srv/images/temp"));
    assert_eq!(svc.max_file_size, 10 * 1024 * 1024);
    assert_eq!(
        svc.get_image_path("IT1", "a.png"),
        PathBuf::from("/srv/images/items/IT1/a.png")
    );
}

#[test]
fn display_slots_fill_from_one_to_five() {
    let svc = ImageService::new(&UploadSettings::default());
    assert_eq!(svc.get_next_display_order(&vec![], 0), Ok(1));
    assert_eq!(svc.get_next_display_order(&vec![1, 2, 4], 3), Ok(3));
    assert_eq!(
        svc.get_next_display_order(&vec![5, 4, 3, 2, 1], 5),
        Err(UploadError::NoDisplayOrderSlot)
    );
}

#[test]
fn uploads_get_free_slots_or_the_first_refusal() {
    let svc = ImageService::new(&UploadSettings::default());
    let files = vec![file(10, "a.jpg", "image/jpeg"), file(20, "b.png", "image/png")];
    assert_eq!(svc.plan_upload(2, &files, &vec![1, 3]), Ok(vec![2, 4]));

    let err = svc.plan_upload(4, &files, &vec![1, 2, 3, 4]).unwrap_err();
    assert_eq!(err.message(), "Cannot upload 2 files. Item already has 4 images (max: 5)");

    let big = vec![file(11 * 1024 * 1024, "huge.jpg", "image/jpeg")];
    let err = svc.plan_upload(0, &big, &vec![]).unwrap_err();
    assert_eq!(err.message(), "File 'huge.jpg' exceeds maximum size of 10485760 bytes");

    let gif = vec![file(5, "c.gif", "image/gif")];
    let err = svc.plan_upload(0, &gif, &vec![]).unwrap_err();
    assert_eq!(err.message(), "File type 'image/gif' not allowed for file 'c.gif'");

    let one = vec![file(5, "d.webp", "image/webp")];
    assert_eq!(svc.plan_upload(1, &one, &vec![1, 2, 3, 4, 5]), Err(UploadError::NoDisplayOrderSlot));
}
