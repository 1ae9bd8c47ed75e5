use gpu_server::transfer::RemoteStore;

#[test]
fn upload_then_download_round_trips_the_bytes() {
    let mut store = RemoteStore::new();
    let content: Vec<u8> = vec![0u8, 1, 2, 250, 255, 10, 13, 0];
    store.upload(b"/remote/dir/gpu.zip".to_vec(), content.clone());
    let back = store.download(&b"/remote/dir/gpu.zip".to_vec());
    assert_eq!(back, Some(content));
}

#[test]
fn a_later_upload_to_the_same_path_shadows_the_earlier_one() {
    let mut store = RemoteStore::new();
    store.upload(b"/remote/f".to_vec(), b"first".to_vec());
    store.upload(b"/remote/g".to_vec(), b"other".to_vec());
    store.upload(b"/remote/f".to_vec(), b"second".to_vec());
    assert_eq!(store.download(&b"/remote/f".to_vec()), Some(b"second".to_vec()));
    assert_eq!(store.download(&b"/remote/g".to_vec()), Some(b"other".to_vec()));
}

#[test]
fn a_path_never_uploaded_downloads_nothing() {
    let mut store = RemoteStore::new();
    store.upload(b"/remote/f".to_vec(), b"data".to_vec());
    assert_eq!(store.download(&b"/remote/missing".to_vec()), None);
}
