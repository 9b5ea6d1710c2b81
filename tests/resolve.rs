use bbdd::parse::VideoType;
use bbdd::resolve::{
    bangumi_redirect, capture_number, looked_up, page_route, page_state, redirect_target, route,
    route_redirected, video_page_route, NumberCapture, Route,
};

const BV_URL: &str = "https://www.bilibili.com/video/BV1P4411T73c/?spm_id_from=333.1387.upload.video_card.click&vd_source=5c131bccac814abb97bb5a4df65ac42b";
const BV_ID: &str = "BV1P4411T73c";
const SS_URL: &str = "https://www.bilibili.com/bangumi/play/ss29325?spm_id_from=333.337.0.0";

fn invalid(m: &str) -> Route {
    Route::Invalid(m.to_string())
}

#[test]
fn test_parse_bv() {
    let target = Route::Found(VideoType::AVID(abv::bv2av(BV_ID).unwrap() as i64));
    assert_eq!(route(BV_URL), target);
    assert_eq!(route(BV_ID), target);
}

#[test]
fn season_inputs_ask_for_the_first_episode() {
    assert_eq!(route(SS_URL), Route::BangumiSeason(29325));
    assert_eq!(route("ss29325"), Route::BangumiSeason(29325));
    assert_eq!(looked_up(&Route::BangumiSeason(29325), 307247), Some(VideoType::EPID(307247)));
    assert_eq!(looked_up(&Route::CourseSeason(1), 9), Some(VideoType::CHEESE(9)));
    assert_eq!(looked_up(&Route::MediaEpisode("md1".to_string()), 9), Some(VideoType::EPID(9)));
    assert_eq!(looked_up(&Route::ReadPage, 9), None);
}

#[test]
fn video_numbers_check_the_video_page() {
    assert_eq!(route("av170001"), Route::CheckVideoPage(170001));
    assert_eq!(route("AV170001"), invalid("无法解析av号"));
    assert_eq!(route("https://www.bilibili.com/video/av170001/"), Route::CheckVideoPage(170001));
    assert_eq!(
        route("https://www.bilibili.com/video/av99999999999999999999/"),
        Route::Invalid(format!(
            "av号解析错误: {}",
            "99999999999999999999".parse::<i64>().unwrap_err()
        ))
    );
    assert_eq!(
        video_page_route(170001, Some("https://www.bilibili.com/bangumi/play/ep12345".to_string())),
        Route::Found(VideoType::EPID(12345))
    );
    assert_eq!(
        video_page_route(170001, Some("https://www.bilibili.com/video/BV1x".to_string())),
        Route::Found(VideoType::AVID(170001))
    );
    assert_eq!(video_page_route(170001, None), Route::Found(VideoType::AVID(170001)));
}

#[test]
fn episode_and_course_inputs() {
    assert_eq!(route("ep307247"), Route::Found(VideoType::EPID(307247)));
    assert_eq!(route("ep+12"), Route::Found(VideoType::EPID(12)));
    assert_eq!(route("epx"), invalid("ep_id 不是数字"));
    assert_eq!(route("ssx"), invalid("ss_id 不是数字"));
    assert_eq!(route("https://www.bilibili.com/bangumi/play/ep42"), Route::Found(VideoType::EPID(42)));
    assert_eq!(route("cheese/ep7"), Route::Found(VideoType::CHEESE(7)));
    assert_eq!(route("cheese/ss8"), Route::CourseSeason(8));
    assert_eq!(route("cheese/x"), invalid("无法解析cheese链接"));
    assert_eq!(route("https://www.bilibili.com/cheese/play/ep9"), Route::Found(VideoType::CHEESE(9)));
    assert_eq!(route("https://www.bilibili.com/cheese/play/ss10"), Route::CourseSeason(10));
    assert_eq!(route("https://x.example/play?ep_id=77&y=1"), Route::Found(VideoType::EPID(77)));
    assert_eq!(route("https://x.example/play?ep_id=abc"), invalid("ep_id 不是数字"));
    assert_eq!(
        route("https://www.bilibili.tv/en/play/1001/2002"),
        Route::Found(VideoType::EPID(2002))
    );
    assert_eq!(
        route("https://www.bilibili.com/bangumi/media/md28229233"),
        Route::MediaEpisode("md28229233".to_string())
    );
    assert_eq!(route("md28229233"), Route::MediaEpisode("28229233".to_string()));
    assert_eq!(route("mdx"), invalid("无法解析md_id"));
}

#[test]
fn list_and_user_inputs() {
    assert_eq!(
        route("https://www.bilibili.com/medialist/play/1?business=space_collection&business_id=55"),
        Route::Found(VideoType::LISTBIZID("55".to_string()))
    );
    assert_eq!(
        route("https://www.bilibili.com/medialist/play/1?business=space_series&business_id=66&x=1"),
        Route::Found(VideoType::SERIESBIZID("66".to_string()))
    );
    assert_eq!(
        route("https://space.bilibili.com/1/channel/collectiondetail?sid=12"),
        Route::Found(VideoType::LISTBIZID("12".to_string()))
    );
    assert_eq!(
        route("https://space.bilibili.com/1/channel/seriesdetail?sid=13"),
        Route::Found(VideoType::SERIESBIZID("13".to_string()))
    );
    assert_eq!(
        route("https://space.bilibili.com/123/favlist?fid=456&ftype=create"),
        Route::Found(VideoType::FAVID { fid: "456".to_string(), mid: "123".to_string() })
    );
    assert_eq!(
        route("https://space.bilibili.com/123/favlist"),
        invalid("无法解析fid")
    );
    assert_eq!(
        route("https://space.bilibili.com/123"),
        Route::Found(VideoType::MID("123".to_string()))
    );
}

#[test]
fn other_inputs() {
    assert_eq!(route("https://b23.tv/abc"), Route::FollowRedirect);
    assert_eq!(route("https://example.com/x"), Route::ReadPage);
    assert_eq!(route("hello"), invalid("无法解析用户输入"));
    assert_eq!(route(""), invalid("无法解析用户输入"));
    assert_eq!(
        redirect_target("https://b23.tv/a", Some("https://www.bilibili.com/video/av1".to_string())),
        Ok("https://www.bilibili.com/video/av1".to_string())
    );
    assert_eq!(
        redirect_target("https://b23.tv/a", Some("https://b23.tv/a".to_string())),
        Err("无限重定向".to_string())
    );
    assert_eq!(redirect_target("https://b23.tv/a", None), Err("无法解析b23.tv链接".to_string()));
    assert_eq!(
        route_redirected("https://www.bilibili.com/bangumi/play/ep5"),
        Route::Found(VideoType::EPID(5))
    );
}

#[test]
fn page_reading() {
    let page = "<script>window.__INITIAL_STATE__={\"epList\":[{\"id\":5}]};(function(){})</script>";
    assert_eq!(page_state(page), Some("{\"epList\":[{\"id\":5}]}".to_string()));
    assert_eq!(page_state("<html></html>"), None);
    assert_eq!(page_route("https://example.com/x", Some(5)), Route::Found(VideoType::EPID(5)));
    assert_eq!(page_route("https://example.com/x", None), invalid("无法解析用户输入"));
    assert_eq!(page_route("ep3", None), Route::Found(VideoType::EPID(3)));
}

#[test]
fn captured_numbers_and_redirects() {
    assert_eq!(capture_number(r"id=(\d+)", "a?id=12"), NumberCapture::Number(12));
    assert_eq!(capture_number(r"id=(\d+)", "a?x=1"), NumberCapture::Missing);
    assert!(matches!(capture_number(r"id=(\w+)", "a?id=zz"), NumberCapture::Bad(_)));
    assert_eq!(
        bangumi_redirect("https://www.bilibili.com/bangumi/play/ep3344"),
        (true, Some("3344".to_string()))
    );
    assert_eq!(bangumi_redirect("https://www.bilibili.com/bangumi/play/ss1"), (true, None));
    assert_eq!(bangumi_redirect("https://www.bilibili.com/video/BV1"), (false, None));
}
