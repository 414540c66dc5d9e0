use sauce::paths::{path_components, PathError, PathMirror};

fn mirror() -> PathMirror {
    PathMirror::new("/home/u", "/home/u/.local/share/sauce", "toml")
}

#[test]
fn test_home() {
    let paths = mirror().ancestors("/home/u");
    let expected = vec!["/home/u/.local/share/sauce.toml".to_string()];
    assert_eq!(paths, Ok(expected));
}

#[test]
fn test_nested_subdir() {
    let paths = mirror().ancestors("/home/u/meow/meow/kitty");
    let expected = vec![
        "/home/u/.local/share/sauce.toml".to_string(),
        "/home/u/.local/share/sauce/meow.toml".to_string(),
        "/home/u/.local/share/sauce/meow/meow.toml".to_string(),
        "/home/u/.local/share/sauce/meow/meow/kitty.toml".to_string(),
    ];
    assert_eq!(paths, Ok(expected));
}

#[test]
fn chain_construction() {
    let mirror = PathMirror::new("/home/u", "root", "toml");
    assert_eq!(
        mirror.ancestors("/home/u/a/b"),
        Ok(vec![
            "root.toml".to_string(),
            "root/a.toml".to_string(),
            "root/a/b.toml".to_string()
        ])
    );
}

#[test]
fn a_path_outside_the_reference_root_is_refused() {
    assert_eq!(mirror().ancestors("/home/v/a"), Err(PathError::PathOutsideScope));
    assert_eq!(mirror().ancestors("/home"), Err(PathError::PathOutsideScope));
    assert_eq!(mirror().ancestors("/"), Err(PathError::PathOutsideScope));
    assert_eq!(mirror().ancestors(""), Err(PathError::PathOutsideScope));
    assert_eq!(mirror().ancestors("/home/user"), Err(PathError::PathOutsideScope));
    assert_eq!(mirror().storage_path("/etc"), Err(PathError::PathOutsideScope));
}

#[test]
fn the_storage_path_is_the_last_ancestor() {
    assert_eq!(
        mirror().storage_path("/home/u/a/b"),
        Ok("/home/u/.local/share/sauce/a/b.toml".to_string())
    );
    assert_eq!(
        mirror().storage_path("/home/u"),
        Ok("/home/u/.local/share/sauce.toml".to_string())
    );
    assert_eq!(
        mirror().storage_path("/home/u/a.b/c.d"),
        Ok("/home/u/.local/share/sauce/a.b/c.d.toml".to_string())
    );
}

#[test]
fn empty_components_do_not_count() {
    assert_eq!(
        mirror().ancestors("/home//u/a/"),
        Ok(vec![
            "/home/u/.local/share/sauce.toml".to_string(),
            "/home/u/.local/share/sauce/a.toml".to_string()
        ])
    );
    assert_eq!(path_components("/a//b/"), vec!["a", "b"]);
    assert_eq!(path_components(""), Vec::<&str>::new());
    assert_eq!(path_components("/"), Vec::<&str>::new());
    assert_eq!(path_components("a"), vec!["a"]);
}

#[test]
fn an_empty_reference_root_covers_everything() {
    let mirror = PathMirror::new("/", "/data", "toml");
    assert_eq!(
        mirror.ancestors("/a"),
        Ok(vec!["/data.toml".to_string(), "/data/a.toml".to_string()])
    );
    let mirror = PathMirror::new("", "", "x");
    assert_eq!(
        mirror.ancestors("a/b"),
        Ok(vec![".x".to_string(), "/a.x".to_string(), "/a/b.x".to_string()])
    );
}
