use tab_runner::engine::{
    check_docker_image_exists, image_query_arguments, ImageQuery,
};
use tab_runner::images::image_listed;

fn listed(listing: &str) -> ImageQuery {
    ImageQuery::Listed(listing.to_string())
}

#[test]
fn image_without_tag_means_latest() {
    assert_eq!(check_docker_image_exists("myimg", &listed("myimg:latest\n")), Ok(true));
    assert_eq!(check_docker_image_exists("myimg", &listed("myimg:v2\n")), Ok(false));
}

#[test]
fn image_with_tag_must_match_the_tag() {
    assert!(image_listed("myimg:v2\n", "myimg:v2"));
    assert!(!image_listed("myimg:latest\n", "myimg:v2"));
    assert!(!image_listed("myimg:v2\n", "myimg:v"));
    assert!(!image_listed("myimg:v2\n", "myim:v2"));
    assert!(image_listed("myimg:latest\n", "myimg:latest"));
}

#[test]
fn any_line_of_the_list_may_match() {
    let listing = "other:latest\nmyimg:v1\nmyimg:v2\nthird:3\n";
    assert!(image_listed(listing, "myimg:v2"));
    assert!(image_listed(listing, "third:3"));
    assert!(image_listed(listing, "other"));
    assert!(!image_listed(listing, "myimg"));
    assert!(!image_listed(listing, "fourth"));
}

#[test]
fn lines_are_trimmed_and_blank_lines_skipped() {
    assert!(image_listed("  myimg:latest  \r\n", "myimg"));
    assert!(image_listed("\n\n\tmyimg:latest", "myimg"));
    assert!(image_listed("a:b\r\nmyimg:latest\r\n", "myimg"));
    assert!(!image_listed("", "myimg"));
    assert!(!image_listed("\n  \n\r\n", "myimg"));
    assert!(!image_listed("\n  \n\r\n", ""));
    assert!(!image_listed("my img:latest", "myimg"));
}

#[test]
fn a_line_without_a_tag_stands_for_latest_too() {
    assert!(image_listed("myimg\n", "myimg"));
    assert!(image_listed("myimg\n", "myimg:latest"));
    assert!(!image_listed("myimg\n", "myimg:v2"));
    assert!(!image_listed("myimg:latest\n", "myimg:"));
    assert!(image_listed("myimg:\n", "myimg:"));
}

#[test]
fn a_registry_port_is_no_tag() {
    assert_eq!(
        check_docker_image_exists(
            "localhost:5000/myimg",
            &listed("localhost:5000/myimg:latest\n")
        ),
        Ok(true)
    );
    assert!(!image_listed("localhost:5000/myimg:v2\n", "localhost:5000/myimg"));
    assert!(image_listed("localhost:5000/myimg:v2\n", "localhost:5000/myimg:v2"));
    assert!(!image_listed("localhost:5000/myimg:v2\n", "localhost:5000/myimg:v1"));
    assert!(!image_listed("localhost:5001/myimg:latest\n", "localhost:5000/myimg"));
    assert!(image_listed("localhost:5000/myimg\n", "localhost:5000/myimg:latest"));
    assert!(image_listed("registry.example.com:443/team/img:1.0\n", "registry.example.com:443/team/img:1.0"));
    assert!(!image_listed("myimg:latest\n", "localhost:5000/myimg"));
    assert!(image_listed(":x\n", ":x"));
}

#[test]
fn image_listed_agrees_with_a_plain_reading() {
    let parts = |reference: &str| -> (String, String) {
        match reference.rfind(':') {
            Some(at) if !reference[at + 1..].contains('/') => {
                (reference[..at].to_string(), reference[at + 1..].to_string())
            }
            _ => (reference.to_string(), "latest".to_string()),
        }
    };
    let plain = |listing: &str, name: &str| {
        listing.lines().any(|line| {
            let line = line.trim();
            !line.is_empty() && parts(line) == parts(name)
        })
    };
    let listings = [
        "",
        "a:latest",
        "a:latest\n",
        " a:latest \n b:1\n",
        "a\nb\n",
        "a:1:2\n",
        "\r\na:latest\r\n\r\n",
        "x\u{00A0}\n a:b",
        "a:\n:b\n:",
        "a:latest\rb:latest",
        "h:1/a\nh:1/a:2\n",
        "h:1/a:latest\n",
        "a/b:c/d\n",
    ];
    let names = [
        "a", "a:latest", "a:1", "b", "b:1", "a:1:2", "a:1", "", ":", "a:", ":b", "x", "h:1/a",
        "h:1/a:2", "h:1/a:latest", "a/b:c/d", "a/b:c/d:latest",
    ];
    for listing in listings {
        for name in names {
            assert_eq!(image_listed(listing, name), plain(listing, name), "{:?} {:?}", listing, name);
        }
    }
}

#[test]
fn a_failed_query_is_an_error() {
    assert_eq!(
        check_docker_image_exists("myimg", &ImageQuery::Failed),
        Err("Failed to list Docker images".to_string())
    );
    assert_eq!(
        check_docker_image_exists("myimg", &ImageQuery::NotRun("no such file".to_string())),
        Err("Failed to check Docker images: no such file".to_string())
    );
}

#[test]
fn the_query_asks_for_repository_and_tag() {
    assert_eq!(
        image_query_arguments("myimg:v2"),
        vec!["images", "--format", "{{.Repository}}:{{.Tag}}", "--filter", "reference=myimg:v2"]
    );
}
