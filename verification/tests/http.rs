use rs_cli::process::http_serve::render_directory_listing;
use rs_cli::process::http_serve::render_listing;
use rs_cli::process::http_serve::request_path;
use rs_cli::process::http_serve::serve_action;
use rs_cli::process::http_serve::serve_path;
use rs_cli::process::http_serve::PathFacts;
use rs_cli::process::http_serve::ServeAction;
use rs_cli::process::http_serve::FAILURE_STATUS;

fn names(items: &[&str]) -> Vec<String> {
    items.iter().map(|s| s.to_string()).collect()
}

#[test]
fn action_for_every_combination_of_facts() {
    for climbs in [false, true] {
        for exists in [false, true] {
            for is_dir in [false, true] {
                let action = serve_action(PathFacts {
                    climbs,
                    exists,
                    is_dir,
                });
                let expected = if climbs {
                    ServeAction::Forbidden
                } else if !exists {
                    ServeAction::NotFound
                } else if is_dir {
                    ServeAction::ListDirectory
                } else {
                    ServeAction::SendFile
                };
                assert_eq!(action, expected);
            }
        }
    }
}

#[test]
fn status_codes() {
    assert_eq!(ServeAction::Forbidden.status(), 403);
    assert_eq!(ServeAction::NotFound.status(), 404);
    assert_eq!(ServeAction::ListDirectory.status(), 200);
    assert_eq!(ServeAction::SendFile.status(), 200);
    assert_eq!(FAILURE_STATUS, 500);
}

#[test]
fn leading_slashes_are_dropped() {
    assert_eq!(request_path("/a/b"), "a/b");
    assert_eq!(request_path("///a"), "a");
    assert_eq!(request_path("a/"), "a/");
    assert_eq!(request_path("/"), "");
    assert_eq!(request_path(""), "");
}

#[test]
fn listing_of_the_root() {
    let html = render_listing("", &None, names(&["b.txt", "a/", "c"]));
    assert_eq!(
        html,
        "<html><body><h1>Index of /</h1><ul>\
         <li><a href=\"/a/\">a/</a></li>\
         <li><a href=\"/b.txt\">b.txt</a></li>\
         <li><a href=\"/c\">c</a></li>\
         </ul></body></html>"
    );
    assert_eq!(
        render_directory_listing("", names(&["b.txt", "a/", "c"])),
        html
    );
}

#[test]
fn listing_of_a_directory_links_to_its_parent() {
    let html = render_listing("docs/api", &Some("docs".to_string()), names(&["x"]));
    assert_eq!(
        html,
        "<html><body><h1>Index of /docs/api</h1><ul>\
         <li><a href=\"/docs/\">../</a></li>\
         <li><a href=\"/docs/api/x\">x</a></li>\
         </ul></body></html>"
    );
    assert_eq!(render_directory_listing("docs/api", names(&["x"])), html);
    let top = render_listing("docs/", &Some(String::new()), names(&["x"]));
    assert_eq!(
        top,
        "<html><body><h1>Index of /docs/</h1><ul>\
         <li><a href=\"/\">../</a></li>\
         <li><a href=\"/docs/x\">x</a></li>\
         </ul></body></html>"
    );
    assert_eq!(render_directory_listing("docs/", names(&["x"])), top);
    let rootless = render_listing("docs", &None, Vec::new());
    assert_eq!(
        rootless,
        "<html><body><h1>Index of /docs</h1><ul>\
         <li><a href=\"/\">../</a></li>\
         </ul></body></html>"
    );
    let slashes = render_listing("a/b", &Some("a//".to_string()), Vec::new());
    assert_eq!(
        slashes,
        "<html><body><h1>Index of /a/b</h1><ul>\
         <li><a href=\"/a/\">../</a></li>\
         </ul></body></html>"
    );
}

#[test]
fn entries_are_sorted_and_absolute() {
    let html = render_listing("", &None, names(&["b", "B", "a", "/abs", "10", "9"]));
    let order: Vec<usize> = ["/abs", "10", "9", "B", "a", "b"]
        .iter()
        .map(|n| html.find(&format!(">{}</a>", n)).unwrap())
        .collect();
    assert!(order.windows(2).all(|w| w[0] < w[1]));
    assert!(html.contains("<li><a href=\"/abs\">/abs</a></li>"));
    assert!(html.contains("<li><a href=\"/a\">a</a></li>"));
    assert!(!html.contains("//abs"));
}

#[test]
fn climbing_paths_are_forbidden_and_missing_ones_not_found() {
    let plan = serve_path(".", "/../secret");
    assert_eq!(plan.action, ServeAction::Forbidden);
    assert_eq!(
        plan.facts,
        PathFacts {
            climbs: true,
            exists: false,
            is_dir: false
        }
    );
    assert_eq!(plan.request_path, "../secret");
    let inner = serve_path(".", "a/../../b");
    assert_eq!(inner.action, ServeAction::Forbidden);
    let missing = serve_path(".", "/no-such-entry-in-this-directory");
    assert_eq!(missing.action, ServeAction::NotFound);
    assert_eq!(missing.request_path, "no-such-entry-in-this-directory");
    let root = serve_path(".", "/");
    assert_eq!(root.action, ServeAction::ListDirectory);
    assert_eq!(
        root.facts,
        PathFacts {
            climbs: false,
            exists: true,
            is_dir: true
        }
    );
    assert_eq!(root.target, ".");
    assert_eq!(root.request_path, "");
    let dotted = serve_path(".", "/..hidden");
    assert_eq!(dotted.action, ServeAction::NotFound);
}
