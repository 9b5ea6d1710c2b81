use bbdd::auth::{login_poll, verify_url, LoginPoll};
use bbdd::client::{redirect_location, request_cookie, site_header, SiteHeader};
use bbdd::config::{run_config, ConfigError};
use bbdd::error::{check_envelope, format_bbdd_error, BBDDError};
use bbdd::merge::OverwriteMode;
use bbdd::parse::VideoType;
use bbdd::sign::{
    episode_play_url_address, episode_play_url_at, play_url_address, play_url_at, sign_query,
    video_play_query,
};
use bbdd::util::{
    audio_quality_to_string, cookie_hint, missing_cookie_hints, random_user_agent, url_to_cookie, user_agent_for,
    video_quality_to_string,
};

#[test]
fn cookie_from_login_url() {
    assert_eq!(
        url_to_cookie("https://x.example/cross?DedeUserID=1&SESSDATA=abc&bili_jct=9").unwrap(),
        "DedeUserID=1;SESSDATA=abc;bili_jct=9"
    );
    assert_eq!(url_to_cookie("a=1&b=2").unwrap(), "a=1;b=2");
    assert_eq!(url_to_cookie("x?y?z=1").unwrap(), "z=1");
    assert_eq!(url_to_cookie("").unwrap(), "");
}

#[test]
fn quality_names() {
    assert_eq!(video_quality_to_string(127), "8K 超高清");
    assert_eq!(video_quality_to_string(80), "1080P 高清");
    assert_eq!(video_quality_to_string(48), "720P 高清");
    assert_eq!(video_quality_to_string(6), "240P 流畅");
    assert_eq!(video_quality_to_string(7), "QUALITY-7");
    assert_eq!(video_quality_to_string(-3), "QUALITY--3");
    assert_eq!(audio_quality_to_string(30280), "192K");
    assert_eq!(audio_quality_to_string(30216), "64K");
    assert_eq!(audio_quality_to_string(1), "AUDIO-1");
}

#[test]
fn user_agents() {
    assert_eq!(
        user_agent_for(99),
        "Mozilla/5.0 (Windows NT 10.0; Win64; x64) AppleWebKit/537.36 (KHTML, like Gecko) Chrome/99 Safari/537.36"
    );
    let ua = random_user_agent();
    let version: u32 = ua
        .split("Chrome/")
        .nth(1)
        .unwrap()
        .split(' ')
        .next()
        .unwrap()
        .parse()
        .unwrap();
    assert!((80..=110).contains(&version));
}

#[test]
fn error_messages() {
    assert_eq!(format_bbdd_error(&BBDDError::HttpRequestError("timeout".to_string())), "网络请求失败: timeout");
    assert_eq!(format_bbdd_error(&BBDDError::JsonParseError("eof".to_string())), "数据解析失败: eof");
    assert_eq!(
        format_bbdd_error(&BBDDError::ApiError { code: -404, message: String::new() }),
        "接口请求失败: 错误代码 -404"
    );
    assert_eq!(
        format_bbdd_error(&BBDDError::ApiError { code: 62002, message: "稿件不可见".to_string() }),
        "接口请求失败: 稿件不可见 (62002)"
    );
    assert_eq!(format_bbdd_error(&BBDDError::ParamError("bad".to_string())), "bad");
    assert_eq!(format_bbdd_error(&BBDDError::StateError("odd".to_string())), "odd");
}

#[test]
fn envelope_codes() {
    assert_eq!(check_envelope(0, "0".to_string()), Ok(()));
    assert_eq!(
        check_envelope(-101, "not logged in".to_string()),
        Err(BBDDError::ApiError { code: -101, message: "not logged in".to_string() })
    );
}

#[test]
fn login_polling() {
    assert_eq!(login_poll(86101), LoginPoll::Waiting);
    assert_eq!(login_poll(86090), LoginPoll::Waiting);
    assert_eq!(login_poll(0), LoginPoll::Success);
    assert_eq!(login_poll(86038), LoginPoll::Failed);
    assert_eq!(
        verify_url("k1"),
        "https://passport.bilibili.com/x/passport-login/web/qrcode/poll?qrcode_key=k1&source=main-fe-header"
    );
}

#[test]
fn request_decisions() {
    assert_eq!(request_cookie("https://www.bilibili.com/bangumi/play/ep1", "a=1"), "a=1;CURRENT_FNVAL=4048;");
    assert_eq!(request_cookie("https://www.bilibili.com/bangumi/play/ss2", ""), ";CURRENT_FNVAL=4048;");
    assert_eq!(request_cookie("https://api.bilibili.com/x/web-interface/view", "a=1"), "a=1");
    assert_eq!(site_header("https://api.bilibili.com/x"), SiteHeader::Referer);
    assert_eq!(site_header("https://api.bilibili.tv/intl"), SiteHeader::ClientHints);
    assert_eq!(site_header("https://b23.tv/x"), SiteHeader::Nothing);
    assert_eq!(redirect_location(302, Some("https://to".to_string())), Some("https://to".to_string()));
    assert_eq!(redirect_location(200, Some("https://to".to_string())), None);
    assert_eq!(redirect_location(301, None), None);
}

#[test]
fn run_configuration() {
    assert_eq!(run_config(true, true, None), Err(ConfigError::ConflictingOverwriteFlags));
    let c = run_config(true, false, None).unwrap();
    assert_eq!(c.overwrite, OverwriteMode::Overwrite);
    assert!(!c.resume);
    let c = run_config(false, false, None).unwrap();
    assert_eq!(c.overwrite, OverwriteMode::Skip);
    assert!(c.resume);
    let c = run_config(false, true, Some("false")).unwrap();
    assert_eq!(c.overwrite, OverwriteMode::Ask);
    assert!(!c.resume);
    assert!(run_config(true, false, Some("true")).unwrap().resume);
    assert_eq!(run_config(false, false, Some("yes")), Err(ConfigError::InvalidResumeValue));
}

#[test]
fn signed_play_address() {
    let q = video_play_query(54916636, 96040706, 1700000000);
    assert_eq!(
        q,
        "support_multi_audio=true&from_client=BROWSER&avid=54916636&cid=96040706&fnval=4048&fnver=0&fourk=1&wts=1700000000"
    );
    assert_eq!(
        sign_query(&"a=1".to_string(), &[0x01, 0xab, 0xf0]),
        "https://api.bilibili.com/x/player/wbi/playurl?a=1&w_rid=01abf0"
    );
    let expected = format!(
        "https://api.bilibili.com/x/player/wbi/playurl?{}&w_rid={}",
        q,
        hex::encode(md5::compute(q.as_bytes()).0)
    );
    let got = play_url_at(54916636, 96040706, 1700000000);
    assert_eq!(got, expected);
    assert!(got.ends_with(&hex::encode(md5::compute(q.as_bytes()).0)));
    assert_eq!(got.len(), "https://api.bilibili.com/x/player/wbi/playurl?".len() + q.len() + 7 + 32);
}

#[test]
fn episode_play_address() {
    assert_eq!(
        episode_play_url_at(797201440, 238907859, 307247, 5),
        "https://api.bilibili.com/pgc/player/web/v2/playurl?support_multi_audio=true&from_client=BROWSER&avid=797201440&cid=238907859&fnval=4048&fnver=0&fourk=1&module=bangumi&ep_id=307247&session=&wts=5"
    );
}

#[test]
fn downloadable_inputs() {
    assert!(VideoType::AVID(1).is_downloadable());
    assert!(VideoType::EPID(1).is_downloadable());
    assert!(!VideoType::CHEESE(1).is_downloadable());
    assert!(!VideoType::MID("3".to_string()).is_downloadable());
}

#[test]
fn cookie_hints() {
    assert_eq!(cookie_hint(""), None);
    assert_eq!(cookie_hint("SESSDATA=1;bili_jct=2;DedeUserID=3"), None);
    assert_eq!(
        cookie_hint("SESSDATA=1"),
        Some("cookie 可能不完整，缺少: bili_jct(部分接口可能需要), DedeUserID(账号标识)".to_string())
    );
    assert_eq!(
        missing_cookie_hints("bili_jct=2;DedeUserID=3"),
        vec!["SESSDATA(通常决定登录态/会员清晰度)".to_string()]
    );
}

#[test]
fn play_addresses_carry_the_current_time() {
    let url = play_url_address(1, 2);
    let query = url
        .strip_prefix("https://api.bilibili.com/x/player/wbi/playurl?")
        .unwrap()
        .split("&w_rid=")
        .next()
        .unwrap()
        .to_string();
    let wts: i64 = query.rsplit("wts=").next().unwrap().parse().unwrap();
    assert!(wts > 1_600_000_000);
    assert_eq!(url, play_url_at(1, 2, wts));
    let ep = episode_play_url_address(3, 4, 5);
    let wts: i64 = ep.rsplit("wts=").next().unwrap().parse().unwrap();
    assert!(wts > 1_600_000_000);
    assert_eq!(ep, episode_play_url_at(3, 4, 5, wts));
}
