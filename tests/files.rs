use photo_turntable::camera::ImageHandle;
use photo_turntable::files::{
    captured_file_name, export_jobs, file_name_with_extension, generate_temp_image_name, next_seq,
    temp_image_name, ExportJob,
};

#[test]
fn temp_names_start_with_image() {
    assert_eq!(temp_image_name("abc"), "image_abc");
    let a = generate_temp_image_name();
    let b = generate_temp_image_name();
    assert!(a.starts_with("image_"));
    assert_eq!(a.len(), "image_".len() + 36);
    assert_ne!(a, b);
}

#[test]
fn extension_follows_the_mime_type() {
    assert_eq!(captured_file_name("image_x", "image/jpeg"), "image_x.jpg");
    assert_eq!(captured_file_name("image_x", "image/png"), "image_x.png");
    assert_eq!(captured_file_name("image_x", "notareal/mimetype"), "image_x");
    assert_eq!(file_name_with_extension("a", Some("cr2")), "a.cr2");
    assert_eq!(file_name_with_extension("a", None), "a");
}

#[test]
fn export_names_and_jobs() {
    let job = ExportJob { image_path: String::from("/tmp/image_q.jpg"), seq: 7, output_directory: String::from("/out") };
    assert_eq!(job.destination_name(), "image_7.jpg");
    let images = vec![
        ImageHandle { seq: 0, path: String::from("/tmp/a.jpg") },
        ImageHandle { seq: 12, path: String::from("/tmp/b.jpg") },
    ];
    assert!(export_jobs(&images, &None).is_empty());
    let jobs = export_jobs(&images, &Some(String::from("/out")));
    assert_eq!(jobs.len(), 2);
    assert_eq!(jobs[1], ExportJob { image_path: String::from("/tmp/b.jpg"), seq: 12, output_directory: String::from("/out") });
    assert_eq!(jobs[1].destination_name(), "image_12.jpg");
}

#[test]
fn next_seq_is_one_past_the_largest() {
    assert_eq!(next_seq(&vec![]), 0);
    assert_eq!(next_seq(&vec![3, 9, 2]), 10);
    assert_eq!(next_seq(&vec![u32::MAX - 1]), u32::MAX);
}
