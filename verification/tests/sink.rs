use s3multiframesink::error::SinkError;
use s3multiframesink::provision::{create_bucket_if_extant, BucketError, BucketRequest};
use s3multiframesink::region::region_name;
use s3multiframesink::s3multiframesink::{S3MultiFrameSink, Settings, State};
use s3multiframesink::upload::{Frame, UploadRequest, UploadTask};

fn configured() -> S3MultiFrameSink {
    let mut sink = S3MultiFrameSink::new(String::from("eu-west-2"));
    sink.set_bucket(Some(String::from("frames")));
    sink.set_key(Some(String::from("demo")));
    sink
}

fn started() -> S3MultiFrameSink {
    let mut sink = configured();
    assert_eq!(sink.start(Ok(())), Ok(()));
    sink
}

#[test]
fn new_sink_is_stopped_and_unconfigured() {
    let sink = S3MultiFrameSink::new(String::from("us-east-1"));
    assert_eq!(sink.state(), State::Stopped);
    assert_eq!(
        sink.settings(),
        &Settings {
            bucket: None,
            key: None,
            region: String::from("us-east-1"),
        }
    );
}

#[test]
fn setters_change_one_setting_each() {
    let mut sink = S3MultiFrameSink::new(String::from("us-east-1"));
    sink.set_bucket(Some(String::from("frames")));
    assert_eq!(sink.settings().bucket, Some(String::from("frames")));
    assert_eq!(sink.settings().key, None);
    sink.set_key(Some(String::from("demo")));
    assert_eq!(sink.settings().bucket, Some(String::from("frames")));
    assert_eq!(sink.settings().key, Some(String::from("demo")));
    assert_eq!(sink.set_region("eu-west-2"), Ok(()));
    assert_eq!(sink.settings().region, "eu-west-2");
    sink.set_bucket(None);
    assert_eq!(
        sink.settings(),
        &Settings {
            bucket: None,
            key: Some(String::from("demo")),
            region: String::from("eu-west-2"),
        }
    );
    assert_eq!(sink.state(), State::Stopped);
}

#[test]
fn bucket_request_names_bucket_and_region() {
    assert_eq!(
        configured().create_bucket_request(),
        Some(BucketRequest {
            bucket: String::from("frames"),
            location_constraint: String::from("eu-west-2"),
        })
    );
}

#[test]
fn bucket_request_needs_a_bucket() {
    let sink = S3MultiFrameSink::new(String::from("eu-west-2"));
    assert_eq!(sink.create_bucket_request(), None);
}

#[test]
fn created_bucket_is_provisioned() {
    assert_eq!(create_bucket_if_extant(Ok(())), Ok(()));
}

#[test]
fn bucket_already_owned_counts_as_created() {
    assert_eq!(
        create_bucket_if_extant(Err(BucketError::AlreadyOwnedByYou)),
        Ok(())
    );
}

#[test]
fn other_bucket_failure_is_a_provisioning_error() {
    assert_eq!(
        create_bucket_if_extant(Err(BucketError::Other(String::from("AccessDenied")))),
        Err(SinkError::Provision(String::from("AccessDenied")))
    );
}

#[test]
fn start_moves_a_stopped_sink_to_started_with_no_frames() {
    let mut sink = configured();
    assert_eq!(sink.start(Ok(())), Ok(()));
    assert_eq!(sink.state(), State::Started { frame_num: 0 });
}

#[test]
fn start_proceeds_when_the_bucket_is_already_owned() {
    let mut sink = configured();
    assert_eq!(sink.start(Err(BucketError::AlreadyOwnedByYou)), Ok(()));
    assert_eq!(sink.state(), State::Started { frame_num: 0 });
    assert!(sink.render(Some(vec![1])).is_ok());
}

#[test]
fn start_stays_stopped_when_provisioning_fails() {
    let mut sink = configured();
    assert_eq!(
        sink.start(Err(BucketError::Other(String::from("AccessDenied")))),
        Err(SinkError::Provision(String::from("AccessDenied")))
    );
    assert_eq!(sink.state(), State::Stopped);
    assert_eq!(sink.render(Some(vec![1])), Err(SinkError::NotStarted));
    assert_eq!(sink.start(Ok(())), Ok(()));
}

#[test]
fn start_twice_fails_and_leaves_the_state() {
    let mut sink = started();
    assert!(sink.render(Some(vec![1])).is_ok());
    assert!(sink.render(Some(vec![2])).is_ok());
    let settings = sink.settings().clone();
    assert_eq!(sink.start(Ok(())), Err(SinkError::AlreadyStarted));
    assert_eq!(sink.state(), State::Started { frame_num: 2 });
    assert_eq!(
        sink.start(Err(BucketError::Other(String::from("AccessDenied")))),
        Err(SinkError::AlreadyStarted)
    );
    assert_eq!(sink.state(), State::Started { frame_num: 2 });
    assert_eq!(sink.settings(), &settings);
}

#[test]
fn start_after_stop_begins_the_count_anew() {
    let mut sink = started();
    assert!(sink.render(Some(vec![1])).is_ok());
    assert_eq!(sink.stop(), Ok(()));
    assert_eq!(sink.start(Ok(())), Ok(()));
    assert_eq!(sink.state(), State::Started { frame_num: 0 });
    assert_eq!(sink.render(Some(vec![1])).unwrap().frame_num, 1);
}

#[test]
fn stop_while_stopped_fails() {
    let mut sink = configured();
    assert_eq!(sink.stop(), Err(SinkError::NotStarted));
    assert_eq!(sink.state(), State::Stopped);
}

#[test]
fn stop_moves_a_started_sink_to_stopped() {
    let mut sink = started();
    assert_eq!(sink.stop(), Ok(()));
    assert_eq!(sink.state(), State::Stopped);
    assert_eq!(sink.stop(), Err(SinkError::NotStarted));
}

#[test]
fn stop_keeps_the_settings() {
    let mut sink = started();
    let settings = sink.settings().clone();
    assert_eq!(sink.stop(), Ok(()));
    assert_eq!(sink.settings(), &settings);
}

#[test]
fn render_while_stopped_fails() {
    let mut sink = configured();
    assert_eq!(sink.render(Some(vec![1, 2, 3])), Err(SinkError::NotStarted));
    assert_eq!(sink.state(), State::Stopped);
}

#[test]
fn render_hands_out_the_upload_of_the_frame() {
    let mut sink = started();
    assert_eq!(
        sink.render(Some(vec![137, 80, 78, 71])),
        Ok(UploadTask {
            frame_num: 1,
            max_attempts: 5,
            request: UploadRequest {
                bucket: String::from("frames"),
                key: String::from("demo/frame01.png"),
                body: vec![137, 80, 78, 71],
            },
        })
    );
    assert_eq!(sink.state(), State::Started { frame_num: 1 });
}

#[test]
fn render_numbers_frames_from_one_in_steps_of_one() {
    let mut sink = started();
    for expected in 1..=120u64 {
        let task = sink.render(Some(vec![expected as u8])).unwrap();
        assert_eq!(task.frame_num, expected);
        assert_eq!(task.request.key, format!("demo/frame{:0>2}.png", expected));
        assert_eq!(sink.state(), State::Started { frame_num: expected });
    }
}

#[test]
fn render_counts_frames_whatever_becomes_of_them() {
    let mut sink = started();
    let first = sink.render(Some(vec![1])).unwrap();
    assert_eq!(first.frame_num, 1);
    assert!(first.finish(Err(String::from("timeout"))).is_err());
    assert_eq!(sink.render(None), Err(SinkError::BufferMap));
    assert_eq!(sink.state(), State::Started { frame_num: 2 });
    let third = sink.render(Some(vec![3])).unwrap();
    assert_eq!(third.frame_num, 3);
    assert_eq!(third.request.key, "demo/frame03.png");
    assert_eq!(third.finish(Ok(())), Ok(()));
    assert_eq!(sink.render(Some(vec![4])).unwrap().frame_num, 4);
}

#[test]
fn render_without_bucket_or_key_is_not_configured() {
    let mut sink = S3MultiFrameSink::new(String::from("eu-west-2"));
    assert_eq!(sink.start(Ok(())), Ok(()));
    assert_eq!(sink.render(Some(vec![1])), Err(SinkError::NotConfigured));
    sink.set_bucket(Some(String::from("frames")));
    assert_eq!(sink.render(Some(vec![1])), Err(SinkError::NotConfigured));
    sink.set_bucket(None);
    sink.set_key(Some(String::from("demo")));
    assert_eq!(sink.render(Some(vec![1])), Err(SinkError::NotConfigured));
    sink.set_bucket(Some(String::from("frames")));
    let task = sink.render(Some(vec![1])).unwrap();
    assert_eq!(task.frame_num, 4);
    assert_eq!(task.request.key, "demo/frame04.png");
}

#[test]
fn render_of_an_unreadable_buffer_is_a_buffer_map_error() {
    let mut sink = started();
    assert_eq!(sink.render(None), Err(SinkError::BufferMap));
    assert_eq!(sink.state(), State::Started { frame_num: 1 });
}

#[test]
fn render_of_an_empty_frame_uploads_no_bytes() {
    let mut sink = started();
    let task = sink.render(Some(Vec::new())).unwrap();
    assert_eq!(task.request.body, Vec::<u8>::new());
}

#[test]
fn upload_image_frame_uses_the_frame_number_given() {
    let sink = configured();
    let task = sink
        .upload_image_frame(Frame {
            sequence_number: 12,
            bytes: vec![9, 9],
        })
        .unwrap();
    assert_eq!(task.frame_num, 12);
    assert_eq!(task.max_attempts, 5);
    assert_eq!(task.request.bucket, "frames");
    assert_eq!(task.request.key, "demo/frame12.png");
    assert_eq!(task.request.body, vec![9, 9]);
}

#[test]
fn put_object_request_holds_bucket_key_and_body() {
    assert_eq!(
        S3MultiFrameSink::create_put_object_request(2, vec![5, 6], "frames", "demo"),
        UploadRequest {
            bucket: String::from("frames"),
            key: String::from("demo/frame02.png"),
            body: vec![5, 6],
        }
    );
}

#[test]
fn region_is_kept_in_the_client_library_spelling() {
    let mut sink = configured();
    assert_eq!(sink.set_region("USEAST1"), Ok(()));
    assert_eq!(sink.settings().region, "us-east-1");
    assert_eq!(sink.set_region("EU-West-1"), Ok(()));
    assert_eq!(sink.settings().region, "eu-west-1");
    assert_eq!(sink.set_region("ap-southeast-2"), Ok(()));
    assert_eq!(sink.settings().region, "ap-southeast-2");
    assert_eq!(sink.settings().bucket, Some(String::from("frames")));
    assert_eq!(sink.settings().key, Some(String::from("demo")));
}

#[test]
fn unknown_region_is_refused_and_changes_nothing() {
    let mut sink = configured();
    let settings = sink.settings().clone();
    assert_eq!(
        sink.set_region("mars-north-1"),
        Err(SinkError::InvalidRegion(String::from("mars-north-1")))
    );
    assert_eq!(sink.set_region(""), Err(SinkError::InvalidRegion(String::new())));
    assert_eq!(sink.settings(), &settings);
    assert_eq!(sink.state(), State::Stopped);
}

#[test]
fn region_names_of_the_client_library() {
    assert_eq!(region_name("us-west-2"), Some(String::from("us-west-2")));
    assert_eq!(region_name("uswest2"), Some(String::from("us-west-2")));
    assert_eq!(region_name("Cn-North-1"), Some(String::from("cn-north-1")));
    assert_eq!(region_name("us-west-9"), None);
    assert_eq!(region_name("us west 2"), None);
}

#[test]
fn applied_region_is_set_or_the_text_refused() {
    let mut sink = configured();
    assert_eq!(
        sink.apply_region("EUWEST3", Some(String::from("eu-west-3"))),
        Ok(())
    );
    assert_eq!(sink.settings().region, "eu-west-3");
    assert_eq!(
        sink.apply_region("nowhere", None),
        Err(SinkError::InvalidRegion(String::from("nowhere")))
    );
    assert_eq!(sink.settings().region, "eu-west-3");
}

#[test]
fn bucket_request_follows_the_region_set() {
    let mut sink = configured();
    assert_eq!(sink.set_region("SAEAST1"), Ok(()));
    assert_eq!(
        sink.create_bucket_request(),
        Some(BucketRequest {
            bucket: String::from("frames"),
            location_constraint: String::from("sa-east-1"),
        })
    );
}
