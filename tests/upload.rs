use boom::config::{S3Config, S3ConfigFields, S3ConfigRaw};
use boom::upload::{
    outcome_event, public_url, HttpMethod, InProgressUploadBuilder, Phase, UploadError,
    UploadEvent, UploadManager, MIN_PART_SIZE,
};

const MIB: usize = 1024 * 1024;

fn fields(host_rewrite: Option<&str>) -> S3ConfigFields {
    S3ConfigFields {
        private_key: "secret".to_string(),
        public_key: "access".to_string(),
        nickname: "main".to_string(),
        endpoint: "https://s3.example.com".to_string(),
        region: "us-east-1".to_string(),
        bucket_name: "media".to_string(),
        host_rewrite: host_rewrite.map(|h| h.to_string()),
    }
}

fn config(host_rewrite: Option<&str>) -> S3Config {
    S3ConfigRaw::new(1, fields(host_rewrite)).build().expect("valid configuration")
}

fn created_body(id: &str) -> String {
    format!(
        "<InitiateMultipartUploadResult xmlns=\"http://s3.amazonaws.com/doc/2006-03-01/\"><UploadId>{}</UploadId></InitiateMultipartUploadResult>",
        id
    )
}

fn started(key: &str, host_rewrite: Option<&str>) -> UploadManager {
    let mut m = UploadManager::new();
    m.set_config(config(host_rewrite)).unwrap();
    m.new_multipart_upload(key).unwrap();
    m.multipart_created(InProgressUploadBuilder { obj_name: key.to_string() }, &created_body("up-1"))
        .unwrap();
    m
}

#[test]
fn multipart_scenario_two_parts_in_order() {
    let mut m = UploadManager::new();
    m.set_config(config(None)).unwrap();
    let create = m.new_multipart_upload("a.mp4").unwrap();
    assert_eq!(create.method, HttpMethod::Post);
    assert!(create.url.contains("a.mp4"));
    assert!(create.url.starts_with("https://media.s3.example.com/a.mp4?"));
    assert!(create.url.contains("uploads=1&"));
    assert_eq!(create.headers, vec![("x-amz-acl".to_string(), "public-read".to_string())]);
    m.multipart_created(
        InProgressUploadBuilder { obj_name: "a.mp4".to_string() },
        &created_body("up-1"),
    )
    .unwrap();
    assert_eq!(m.phase(), Phase::InProgress);

    // 4 MiB stays below the threshold: no request.
    assert!(m.upload_part(&vec![1u8; 4 * MIB]).unwrap().is_none());

    // 2 MiB more crosses it: one part, carrying the whole buffer.
    let p1 = m.upload_part(&vec![2u8; 2 * MIB]).unwrap().expect("a part to send");
    assert_eq!(p1.part_number, 1);
    assert_eq!(p1.body.len(), 6 * MIB);
    assert!(p1.url.contains("partNumber=1&"));
    assert!(p1.url.contains("uploadId=up-1&"));
    assert!(p1.url.contains("X-Amz-Expires=3600&"));
    m.part_uploaded(1, "\"etag-one\"").unwrap();

    // Completing forces the final part, whatever its size.
    let p2 = m.complete_upload(&[]).unwrap();
    assert_eq!(p2.part_number, 2);
    assert_eq!(p2.body.len(), 0);
    m.part_uploaded(2, "\"etag-two\"").unwrap();

    let fin = m.finalize_request().unwrap();
    assert_eq!(fin.method, HttpMethod::Post);
    assert!(fin.url.starts_with("https://media.s3.example.com/a.mp4?"));
    assert!(fin.url.contains("uploadId=up-1&"));
    assert_eq!(
        fin.body,
        "<CompleteMultipartUpload><Part><ETag>etag-one</ETag><PartNumber>1</PartNumber></Part><Part><ETag>etag-two</ETag><PartNumber>2</PartNumber></Part></CompleteMultipartUpload>"
    );
    let url = m.upload_finished().unwrap();
    assert_eq!(url, "https://media.s3.example.com/a.mp4");
    assert_eq!(m.phase(), Phase::Idle);
}

#[test]
fn every_byte_is_sent_once() {
    let mut m = started("v.mp4", None);
    let chunks = [3 * MIB, 1, 2 * MIB + 5, 7 * MIB, 0, 12345];
    let last = 999;
    let mut sent = 0usize;
    let mut next = 1u16;
    for c in chunks {
        if let Some(p) = m.upload_part(&vec![7u8; c]).unwrap() {
            assert_eq!(p.part_number, next);
            assert!(p.body.len() >= MIN_PART_SIZE);
            sent += p.body.len();
            m.part_uploaded(next, &format!("\"t{}\"", next)).unwrap();
            next += 1;
        }
    }
    let p = m.complete_upload(&vec![9u8; last]).unwrap();
    sent += p.body.len();
    m.part_uploaded(p.part_number, "\"final\"").unwrap();
    assert_eq!(sent, chunks.iter().sum::<usize>() + last);
    assert!(m.finalize_request().is_ok());
}

#[test]
fn parts_are_listed_in_ascending_order() {
    let mut m = started("v.mp4", None);
    for n in 1..=3u16 {
        let p = m.upload_part(&vec![0u8; MIN_PART_SIZE]).unwrap().unwrap();
        assert_eq!(p.part_number, n);
        m.part_uploaded(n, &format!("tag{}", n)).unwrap();
    }
    let p = m.complete_upload(b"tail").unwrap();
    assert_eq!(p.part_number, 4);
    m.part_uploaded(4, "tag4").unwrap();
    let body = m.finalize_request().unwrap().body;
    let positions: Vec<usize> =
        (1..=4).map(|n| body.find(&format!("<PartNumber>{}</PartNumber>", n)).unwrap()).collect();
    assert!(positions.windows(2).all(|w| w[0] < w[1]));
    let tags: Vec<usize> =
        (1..=4).map(|n| body.find(&format!("<ETag>tag{}</ETag>", n)).unwrap()).collect();
    assert!(tags.windows(2).all(|w| w[0] < w[1]));
}

#[test]
fn failed_part_is_rolled_back_and_retried_under_the_same_number() {
    let mut m = started("v.mp4", None);
    assert!(m.upload_part(&vec![1u8; 3 * MIB]).unwrap().is_none());
    let p = m.upload_part(&vec![2u8; 3 * MIB]).unwrap().unwrap();
    assert_eq!(p.part_number, 1);
    assert_eq!(p.body.len(), 6 * MIB);
    // While the part is out, nothing else is taken.
    assert_eq!(m.upload_part(b"x").unwrap_err(), UploadError::PartPending);
    assert_eq!(m.complete_upload(b"x").unwrap_err(), UploadError::PartPending);
    // The PUT failed: the chunk that prepared it is dropped again, so the
    // same chunk can be handed in once more without doubling any byte.
    m.part_failed().unwrap();
    assert_eq!(m.part_failed(), Err(UploadError::StalePart));
    let again = m.upload_part(&vec![2u8; 3 * MIB]).unwrap().unwrap();
    assert_eq!(again.part_number, 1);
    assert_eq!(again.body.len(), 6 * MIB);
    m.part_uploaded(1, "t1").unwrap();
    // A failed final part is rolled back the same way.
    let last = m.complete_upload(b"tail").unwrap();
    assert_eq!(last.part_number, 2);
    m.part_failed().unwrap();
    let last = m.complete_upload(b"tail").unwrap();
    assert_eq!((last.part_number, last.body.len()), (2, 4));
    m.part_uploaded(2, "t2").unwrap();
    assert!(m.finalize_request().is_ok());
}

#[test]
fn keys_that_make_no_object_url_are_refused() {
    let mut m = UploadManager::new();
    m.set_config(config(None)).unwrap();
    assert_eq!(m.delete("//").unwrap_err(), UploadError::InvalidObjectUrl);
    assert_eq!(m.delete("").unwrap_err(), UploadError::InvalidObjectUrl);
    assert_eq!(m.new_upload("", "image/png").unwrap_err(), UploadError::InvalidObjectUrl);
    assert_eq!(m.new_multipart_upload("").unwrap_err(), UploadError::InvalidObjectUrl);
    assert_eq!(
        m.open_session(InProgressUploadBuilder { obj_name: String::new() }, "id".to_string()),
        Err(UploadError::InvalidObjectUrl)
    );
    assert_eq!(m.new_upload("//", "image/png").unwrap_err(), UploadError::InvalidObjectUrl);
    assert_eq!(m.new_multipart_upload("//").unwrap_err(), UploadError::InvalidObjectUrl);
    assert_eq!(m.object_public_url("//"), Err(UploadError::InvalidObjectUrl));
    assert_eq!(
        m.multipart_created(InProgressUploadBuilder { obj_name: "//".to_string() }, &created_body("x")),
        Err(UploadError::InvalidObjectUrl)
    );
    assert_eq!(m.phase(), Phase::Idle);
}

#[test]
fn set_config_refused_while_uploading() {
    let mut m = UploadManager::new();
    assert!(m.set_config(config(None)).is_ok());
    assert!(m.set_config(config(None)).is_ok());
    assert_eq!(m.phase(), Phase::Idle);
    let mut m = started("a.mp4", None);
    assert_eq!(m.set_config(config(None)), Err(UploadError::AlreadyUploading));
    assert_eq!(m.phase(), Phase::InProgress);
}

#[test]
fn new_multipart_upload_by_state() {
    let m = UploadManager::new();
    assert_eq!(m.new_multipart_upload("a.mp4").unwrap_err(), UploadError::Unconfigured);
    let mut m = UploadManager::new();
    assert_eq!(
        m.multipart_created(InProgressUploadBuilder { obj_name: "a".to_string() }, &created_body("x")),
        Err(UploadError::Unconfigured)
    );
    m.set_config(config(None)).unwrap();
    assert!(m.new_multipart_upload("a.mp4").is_ok());
    let m = started("a.mp4", None);
    assert_eq!(m.new_multipart_upload("b.mp4").unwrap_err(), UploadError::AlreadyUploading);
    let mut m = started("a.mp4", None);
    assert_eq!(
        m.open_session(InProgressUploadBuilder { obj_name: "b".to_string() }, "id".to_string()),
        Err(UploadError::AlreadyUploading)
    );
}

#[test]
fn delete_needs_only_a_configuration() {
    let mut m = UploadManager::new();
    assert_eq!(m.delete("x.png").unwrap_err(), UploadError::Unconfigured);
    m.set_config(config(None)).unwrap();
    let req = m.delete("x.png").unwrap();
    assert_eq!(req.method, HttpMethod::Delete);
    assert!(req.url.contains("X-Amz-Expires=3600"));
    assert!(req.url.starts_with("https://media.s3.example.com/x.png?"));
    assert!(req.headers.is_empty());
    assert_eq!(m.phase(), Phase::Idle);
    let m = started("a.mp4", None);
    assert!(m.delete("x.png").is_ok());
}

#[test]
fn one_shot_put_request() {
    let mut m = UploadManager::new();
    assert_eq!(m.new_upload("s.png", "image/png").unwrap_err(), UploadError::Unconfigured);
    m.set_config(config(None)).unwrap();
    let req = m.new_upload("s.png", "image/png").unwrap();
    assert_eq!(req.method, HttpMethod::Put);
    assert_eq!(
        req.headers,
        vec![
            ("content-type".to_string(), "image/png".to_string()),
            ("x-amz-acl".to_string(), "public-read".to_string())
        ]
    );
    assert_eq!(m.object_public_url("s.png").unwrap(), "https://media.s3.example.com/s.png");
}

#[test]
fn no_upload_in_progress_errors() {
    let mut m = UploadManager::new();
    m.set_config(config(None)).unwrap();
    assert_eq!(m.upload_part(b"x").unwrap_err(), UploadError::NoUploadInProgress);
    assert_eq!(m.complete_upload(b"x").unwrap_err(), UploadError::NoUploadInProgress);
    assert_eq!(m.part_uploaded(1, "t"), Err(UploadError::NoUploadInProgress));
    assert_eq!(m.part_failed(), Err(UploadError::NoUploadInProgress));
    assert_eq!(m.finalize_request().unwrap_err(), UploadError::NoUploadInProgress);
    assert_eq!(m.upload_finished(), Err(UploadError::NoUploadInProgress));
}

#[test]
fn malformed_create_response() {
    let mut m = UploadManager::new();
    m.set_config(config(None)).unwrap();
    assert_eq!(
        m.multipart_created(InProgressUploadBuilder { obj_name: "a".to_string() }, "<oops/>"),
        Err(UploadError::MissingUploadId)
    );
    assert_eq!(m.phase(), Phase::Idle);
}

#[test]
fn stale_acknowledgement_is_refused() {
    let mut m = started("a.mp4", None);
    m.upload_part(&vec![0u8; MIN_PART_SIZE]).unwrap().unwrap();
    assert_eq!(m.part_uploaded(2, "t"), Err(UploadError::StalePart));
    assert!(m.part_uploaded(1, "t").is_ok());
    assert_eq!(m.part_uploaded(1, "t"), Err(UploadError::StalePart));
}

#[test]
fn finalize_waits_for_the_final_part() {
    let mut m = started("a.mp4", None);
    assert_eq!(m.finalize_request().unwrap_err(), UploadError::UnflushedBytes);
    m.upload_part(b"abc").unwrap();
    assert_eq!(m.finalize_request().unwrap_err(), UploadError::UnflushedBytes);
    let p = m.complete_upload(&[]).unwrap();
    // The final part is out but not acknowledged yet.
    assert_eq!(m.finalize_request().unwrap_err(), UploadError::UnflushedBytes);
    assert_eq!(m.upload_finished(), Err(UploadError::UnflushedBytes));
    m.part_uploaded(p.part_number, "t").unwrap();
    assert!(m.finalize_request().is_ok());
}

#[test]
fn session_stays_after_failed_finalize() {
    let mut m = started("a.mp4", None);
    let p = m.complete_upload(b"abc").unwrap();
    m.part_uploaded(p.part_number, "t").unwrap();
    assert!(m.ready_to_finalize());
    assert!(m.finalize_request().is_ok());
    // The finalize POST failed: the session is still there to retry.
    assert_eq!(m.phase(), Phase::InProgress);
    assert!(m.finalize_request().is_ok());
    assert!(m.upload_finished().is_ok());
    assert_eq!(m.phase(), Phase::Idle);
}

#[test]
fn host_rewrite_applies_to_public_urls() {
    let mut m = started("clips/a.mp4", Some("https://cdn.example.org/"));
    let p = m.complete_upload(b"abc").unwrap();
    m.part_uploaded(p.part_number, "t").unwrap();
    assert_eq!(m.upload_finished().unwrap(), "https://cdn.example.org/clips/a.mp4");
}

#[test]
fn public_url_exact() {
    assert_eq!(public_url("https://b.s3/x/y", "/x/y", &None), "https://b.s3/x/y");
    assert_eq!(
        public_url("https://b.s3/x/y", "/x/y", &Some("https://cdn.io//".to_string())),
        "https://cdn.io/x/y"
    );
    assert_eq!(public_url("u", "/k", &Some("https://cdn.io/base".to_string())), "https://cdn.io/base/k");
}

#[test]
fn outcome_events() {
    assert_eq!(outcome_event(true, UploadEvent::Progress), UploadEvent::Progress);
    assert_eq!(outcome_event(true, UploadEvent::Done), UploadEvent::Done);
    assert_eq!(outcome_event(false, UploadEvent::Started), UploadEvent::Failed);
}
