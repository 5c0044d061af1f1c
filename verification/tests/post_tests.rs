use kemono_dl::config::build_filter;
use kemono_dl::error::PostError;
use kemono_dl::error::RunError;
use kemono_dl::error::TransferError;
use kemono_dl::post::admitted_files;
use kemono_dl::post::assign_dest_names;
use kemono_dl::post::unique_name;
use kemono_dl::post::FileDescriptor;
use kemono_dl::post::Post;
use kemono_dl::text::dec_string;

fn fd(url: &str, name: &str) -> FileDescriptor {
    FileDescriptor { url: url.to_string(), name: name.to_string(), expected_size: None }
}

#[test]
fn files_are_filtered_by_name_in_order() {
    let none: Vec<String> = Vec::new();
    let wfl = vec![r"\.mp4$".to_string()];
    let bfl = vec!["sample".to_string()];
    let filter = build_filter(&none, &none, &wfl, &bfl, &None).expect("valid");
    let files = vec![
        fd("u1", "a.mp4"),
        fd("u2", "b.png"),
        fd("u3", "sample.mp4"),
        fd("u4", "c.mp4"),
    ];
    let kept = admitted_files(&files, &filter);
    let names: Vec<&str> = kept.iter().map(|f| f.name.as_str()).collect();
    assert_eq!(names, vec!["a.mp4", "c.mp4"]);
}

#[test]
fn a_free_name_is_kept() {
    let used = vec!["other".to_string()];
    assert_eq!(unique_name("movie.mp4", &used), "movie.mp4");
}

#[test]
fn a_colliding_name_gets_an_index_suffix() {
    let used = vec!["movie.mp4".to_string()];
    assert_eq!(unique_name("movie.mp4", &used), "movie.mp4_1");
    let used2 = vec!["movie.mp4".to_string(), "movie.mp4_1".to_string()];
    assert_eq!(unique_name("movie.mp4", &used2), "movie.mp4_2");
}

#[test]
fn assigned_names_within_a_post_are_distinct() {
    let files = vec![fd("u1", "a"), fd("u2", "a"), fd("u3", "a"), fd("u4", "b")];
    let names = assign_dest_names(&files);
    assert_eq!(names, vec!["a", "a_1", "a_2", "b"]);
    for i in 0..names.len() {
        for j in 0..names.len() {
            if i != j {
                assert_ne!(names[i], names[j]);
            }
        }
    }
}

#[test]
fn decimal_rendering_is_plain_notation() {
    assert_eq!(dec_string(0), "0");
    assert_eq!(dec_string(7), "7");
    assert_eq!(dec_string(10), "10");
    assert_eq!(dec_string(12345), "12345");
    assert_eq!(dec_string(u64::MAX), "18446744073709551615");
}

#[test]
fn a_default_post_is_empty() {
    let p = Post::default();
    assert_eq!(p.id, "");
    assert_eq!(p.user, "");
    assert_eq!(p.service, "");
    assert_eq!(p.title, "");
    assert_eq!(p.substring, "");
    assert_eq!(p.published, "");
}

#[test]
fn only_config_and_listing_failures_are_fatal() {
    let config = RunError::Config(kemono_dl::error::ConfigError::InvalidConcurrency);
    let listing = RunError::Listing { offset: 50, cause: "status 500".to_string() };
    let post = RunError::Post(PostError { post_id: "p1".to_string(), cause: "404".to_string() });
    let transfer = RunError::Transfer(TransferError {
        url: "http://example/file".to_string(),
        cause: "reset".to_string(),
    });
    assert!(config.is_fatal());
    assert!(listing.is_fatal());
    assert!(!post.is_fatal());
    assert!(!transfer.is_fatal());
    assert!(!RunError::Cancelled.is_fatal());
}
