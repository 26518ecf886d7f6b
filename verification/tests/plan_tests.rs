use thumbnailer::format::canonical_extension;
use thumbnailer::format::format_of_extension;
use thumbnailer::format::FormatTag;
use thumbnailer::job::ConfigError;
use thumbnailer::job::Job;
use thumbnailer::plan::plan_batch;
use thumbnailer::plan::plan_for;
use thumbnailer::select::enumeration_pattern;
use thumbnailer::select::matches_filter;
use thumbnailer::select::select_candidates;

fn job(width: u32, height: u32, filter: &str) -> Job {
    Job::new(
        String::from("images"),
        String::from("thumbnails"),
        width,
        height,
        String::from(filter),
    )
    .unwrap()
}

#[test]
fn classifies_legacy_extension() {
    assert_eq!(format_of_extension("webp"), FormatTag::Legacy);
}

#[test]
fn classifies_canonical_extension() {
    assert_eq!(format_of_extension("png"), FormatTag::Canonical);
}

#[test]
fn classifies_other_extension() {
    assert_eq!(format_of_extension("jpg"), FormatTag::Other);
}

#[test]
fn classification_is_case_sensitive() {
    assert_eq!(format_of_extension("WEBP"), FormatTag::Other);
}

#[test]
fn canonical_extension_is_png() {
    assert_eq!(canonical_extension(), "png");
}

#[test]
fn zero_width_is_config_error() {
    let r = Job::new(
        String::from("images"),
        String::from("thumbnails"),
        0,
        50,
        String::from(".jpg"),
    );
    assert_eq!(r.unwrap_err(), ConfigError::ZeroWidth);
}

#[test]
fn zero_height_is_config_error() {
    let r = Job::new(
        String::from("images"),
        String::from("thumbnails"),
        100,
        0,
        String::from(".jpg"),
    );
    assert_eq!(r.unwrap_err(), ConfigError::ZeroHeight);
}

#[test]
fn valid_job_keeps_fields() {
    let j = job(100, 50, ".jpg");
    assert_eq!(j.input_dir, "images");
    assert_eq!(j.output_dir, "thumbnails");
    assert_eq!(j.width, 100);
    assert_eq!(j.height, 50);
    assert_eq!(j.filter_ext, ".jpg");
}

#[test]
fn enumeration_pattern_covers_the_directory() {
    assert_eq!(enumeration_pattern("images"), "images/*");
}

#[test]
fn filter_matches_suffix() {
    assert!(matches_filter("images/a.jpg", ".jpg"));
}

#[test]
fn filter_rejects_other_suffix() {
    assert!(!matches_filter("images/a.jpeg", ".jpg"));
}

#[test]
fn empty_filter_matches_everything() {
    assert!(matches_filter("anything", ""));
}

#[test]
fn selection_keeps_matches_in_order() {
    let names = vec![
        String::from("images/b.jpg"),
        String::from("images/notes.txt"),
        String::from("images/a.jpg"),
    ];
    let selected = select_candidates(&names, &String::from(".jpg"));
    assert_eq!(selected, vec![String::from("images/b.jpg"), String::from("images/a.jpg")]);
}

#[test]
fn unmatched_file_yields_no_candidate() {
    let names = vec![String::from("images/a.jpg"), String::from("images/skip.txt")];
    let selected = select_candidates(&names, &String::from(".jpg"));
    assert!(!selected.contains(&String::from("images/skip.txt")));
}

#[test]
fn plan_for_plain_source() {
    let p = plan_for(&job(100, 50, ".jpg"), &String::from("images/a.jpg"));
    assert_eq!(p.source, "images/a.jpg");
    assert_eq!(p.output, "thumbnails/a.jpg");
    assert!(!p.needs_convert);
    assert_eq!(p.width, 100);
    assert_eq!(p.height, 50);
}

#[test]
fn plan_for_legacy_source_resolves_canonical_output() {
    let p = plan_for(&job(100, 50, ".webp"), &String::from("images/c.webp"));
    assert_eq!(p.source, "images/c.webp");
    assert_eq!(p.output, "thumbnails/c.png");
    assert!(p.needs_convert);
}

#[test]
fn plan_for_extensionless_source() {
    let p = plan_for(&job(100, 50, ""), &String::from("images/readme"));
    assert_eq!(p.output, "thumbnails/readme");
    assert!(!p.needs_convert);
}

#[test]
fn plan_batch_plans_only_selected() {
    let j = job(100, 50, ".jpg");
    let names = vec![
        String::from("images/a.jpg"),
        String::from("images/c.webp"),
        String::from("images/b.jpg"),
    ];
    let plans = plan_batch(&j, &names);
    assert_eq!(plans.len(), 2);
    assert_eq!(plans[0].source, "images/a.jpg");
    assert_eq!(plans[0].output, "thumbnails/a.jpg");
    assert_eq!(plans[1].source, "images/b.jpg");
    assert_eq!(plans[1].output, "thumbnails/b.jpg");
}
