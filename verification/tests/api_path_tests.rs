use kemono_dl::api_path::post_info_path;
use kemono_dl::api_path::post_page_path;
use kemono_dl::api_path::posts_path;
use kemono_dl::api_path::profile_path;
use kemono_dl::api_path::range_header_value;
use kemono_dl::api_path::user_page_path;

#[test]
fn the_listing_path_carries_the_offset() {
    assert_eq!(posts_path("fanbox", "4107959", 0), "/api/v1/fanbox/user/4107959/posts?o=0");
    assert_eq!(posts_path("fanbox", "4107959", 50), "/api/v1/fanbox/user/4107959/posts?o=50");
}

#[test]
fn the_post_record_path_names_the_post() {
    assert_eq!(
        post_info_path("fanbox", "4107959", "7999699"),
        "/api/v1/fanbox/user/4107959/post/7999699"
    );
}

#[test]
fn the_profile_path_names_the_user() {
    assert_eq!(profile_path("fanbox", "4107959"), "/api/v1/fanbox/user/4107959/profile");
}

#[test]
fn the_referer_paths_mirror_the_site_pages() {
    assert_eq!(
        post_page_path("fanbox", "4107959", "7999699"),
        "/fanbox/user/4107959/post/7999699"
    );
    assert_eq!(user_page_path("fanbox", "4107959"), "/fanbox/user/4107959");
}

#[test]
fn the_range_header_asks_from_the_resume_offset() {
    assert_eq!(range_header_value(0), "bytes=0-");
    assert_eq!(range_header_value(1024), "bytes=1024-");
}
