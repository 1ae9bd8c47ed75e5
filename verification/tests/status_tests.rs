use gpu_server::status::classify_status;

#[test]
fn each_nonterminal_marker_alone_keeps_the_job_in_flight() {
    assert!(!classify_status(b"PENDING\n"));
    assert!(!classify_status(b"RUNNING\n"));
    assert!(!classify_status(b"CONFIGURING\n"));
    assert!(!classify_status(b"COMPLETING\n"));
}

#[test]
fn any_subset_of_markers_keeps_the_job_in_flight() {
    assert!(!classify_status(b"PENDING\nRUNNING\n"));
    assert!(!classify_status(b"CONFIGURING\nCOMPLETING\n"));
    assert!(!classify_status(b"STATE\nRUNNING\nRUNNING\nCOMPLETING\n"));
    assert!(!classify_status(b"PENDING\nRUNNING\nCONFIGURING\nCOMPLETING\n"));
}

#[test]
fn a_response_without_markers_is_terminal() {
    assert!(classify_status(b"COMPLETED\n"));
    assert!(classify_status(b"FAILED\n"));
    assert!(classify_status(b"CANCELLED\n"));
    assert!(classify_status(b"STATE\n"));
}

#[test]
fn an_empty_response_means_the_job_left_the_queue() {
    assert!(classify_status(b""));
    assert!(classify_status(b"\n"));
}

#[test]
fn markers_are_found_anywhere_in_the_response() {
    assert!(!classify_status(b"STATE\nCOMPLETED\nRUNNING\n"));
}
