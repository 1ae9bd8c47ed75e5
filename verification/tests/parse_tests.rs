use gpu_server::errors::JobError;
use gpu_server::parse::parse_job_id;

#[test]
fn acknowledgment_with_trailing_newline_yields_exact_id() {
    let r = parse_job_id(b"Submitted batch job 12345\n");
    assert_eq!(r, Ok(b"12345".to_vec()));
}

#[test]
fn acknowledgment_without_trailing_newline_yields_exact_id() {
    let r = parse_job_id(b"Submitted batch job 99");
    assert_eq!(r, Ok(b"99".to_vec()));
}

#[test]
fn id_stops_at_first_whitespace() {
    let r = parse_job_id(b"Submitted batch job 4242 on cluster\n");
    assert_eq!(r, Ok(b"4242".to_vec()));
}

#[test]
fn text_not_starting_with_template_is_a_parse_error() {
    assert_eq!(parse_job_id(b"error: invalid partition"), Err(JobError::Parse));
}

#[test]
fn lowercase_template_is_a_parse_error() {
    assert_eq!(parse_job_id(b"submitted batch job 12345\n"), Err(JobError::Parse));
}

#[test]
fn empty_text_is_a_parse_error() {
    assert_eq!(parse_job_id(b""), Err(JobError::Parse));
}

#[test]
fn truncated_template_is_a_parse_error() {
    assert_eq!(parse_job_id(b"Submitted batch job"), Err(JobError::Parse));
}

#[test]
fn template_with_no_id_is_a_parse_error() {
    assert_eq!(parse_job_id(b"Submitted batch job "), Err(JobError::Parse));
    assert_eq!(parse_job_id(b"Submitted batch job \n"), Err(JobError::Parse));
}
