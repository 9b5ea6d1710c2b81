use bbdd::media::{
    select_audio, select_video, video_info, PageFields, VideoDimension, VideoFields, VideoInfoOwner,
    VideoMedia,
};
use bbdd::plan::{file_title, output_file_name, plan_item};

fn media(id: i64, url: &str) -> VideoMedia {
    VideoMedia { id, base_url: url.to_string(), ..Default::default() }
}

#[test]
fn file_title_replaces_reserved_characters() {
    assert_eq!(file_title("a<b>c:d\"e/f\\g|h?i*j"), "a_b_c_d_e_f_g_h_i_j");
    assert_eq!(file_title("普通标题 1"), "普通标题 1");
    assert_eq!(file_title(""), "");
    assert_eq!(output_file_name("x/y"), "x_y.mp4");
}

#[test]
fn item_plan_layout() {
    let p = plan_item("A/B", &media(80, "https://v"), &media(30280, "https://a"));
    assert_eq!(p.output_file, "A_B.mp4");
    assert_eq!(p.video_file, "A_B.video.80");
    assert_eq!(p.audio_file, "A_B.audio.30280");
    assert_eq!(p.transfers.len(), 2);
    assert_eq!(p.transfers[0].file_path, "A_B.audio.30280");
    assert_eq!(p.transfers[0].url, "https://a");
    assert_eq!(p.transfers[0].label, "音频");
    assert_eq!(p.transfers[1].file_path, "A_B.video.80");
    assert_eq!(p.transfers[1].url, "https://v");
    assert_eq!(p.transfers[1].label, "视频");
    assert_eq!(p.merge_inputs, vec!["A_B.video.80".to_string(), "A_B.audio.30280".to_string()]);
}

#[test]
fn stream_selection() {
    let v = vec![media(120, "a"), media(80, "b"), media(64, "c")];
    assert_eq!(select_video(&v, Some(100)), Some(1));
    assert_eq!(select_video(&v, Some(64)), Some(2));
    assert_eq!(select_video(&v, Some(10)), Some(0));
    assert_eq!(select_video(&v, None), Some(0));
    assert_eq!(select_video(&vec![], Some(80)), None);
    assert_eq!(select_audio(&v), Some(0));
    assert_eq!(select_audio(&vec![]), None);
}

#[test]
fn dimension_resolution() {
    assert_eq!(VideoDimension { width: 1920, height: 1080 }.resolution(), "1920x1080");
    assert_eq!(VideoDimension { width: -1, height: 0 }.resolution(), "-1x0");
}

#[test]
fn video_info_from_reported_fields() {
    let owner = VideoInfoOwner { mid: 7, name: "up".to_string() };
    let fields = VideoFields {
        bvid: "BV1x".to_string(),
        cid: 11,
        title: "  Title \n".to_string(),
        desc: " d ".to_string(),
        pic: "p".to_string(),
        pubdate: 99,
        owner: owner.clone(),
        is_stein_gate: None,
        redirect_url: Some("https://www.bilibili.com/bangumi/play/ep4455".to_string()),
        pages: vec![PageFields {
            page: 1,
            cid: 11,
            part: " part one ".to_string(),
            duration: 60,
            dimension: VideoDimension { width: 1, height: 2 },
        }],
    };
    let info = video_info(42, fields);
    assert_eq!(info.title, "Title");
    assert_eq!(info.desc, "d");
    assert!(info.is_bangumi);
    assert_eq!(info.is_stein_gate, 0);
    assert_eq!(info.pages.len(), 1);
    assert_eq!(info.pages[0].epid, "4455");
    assert_eq!(info.pages[0].part, "part one");
    assert_eq!(info.pages[0].aid, 42);
    assert_eq!(info.pages[0].owner, owner);
    assert_eq!(info.pages[0].pubdate, 99);
}

#[test]
fn video_info_without_redirect() {
    let page = |n: i64| PageFields {
        page: n,
        cid: n * 10,
        part: format!("p{}", n),
        duration: 1,
        dimension: VideoDimension::default(),
    };
    let fields = VideoFields {
        bvid: String::new(),
        cid: 1,
        title: "t".to_string(),
        desc: String::new(),
        pic: String::new(),
        pubdate: 0,
        owner: VideoInfoOwner::default(),
        is_stein_gate: Some(1),
        redirect_url: Some("https://www.bilibili.com/bangumi/play/ep1".to_string()),
        pages: vec![page(1), page(2)],
    };
    let info = video_info(5, fields);
    assert!(info.is_bangumi);
    assert_eq!(info.is_stein_gate, 1);
    assert_eq!(info.pages[0].epid, "");
    assert_eq!(info.pages[1].cid, 20);
}
