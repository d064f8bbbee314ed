use dotman::error::ErrorKind;
use dotman::template::{generate_template, VarMap};

fn vars(pairs: &[(&str, &str)]) -> VarMap {
    let mut v = VarMap::new();
    for (k, val) in pairs {
        v.insert(k.to_string(), val.to_string());
    }
    v
}

#[test]
fn variable_is_substituted() {
    let v = vars(&[("primary", "#ff0000")]);
    let r = generate_template("colors.tmpl", "fg = {{ primary }}\n", &v).unwrap();
    assert_eq!(r, "fg = #ff0000\n");
}

#[test]
fn undefined_variable_is_a_render_error() {
    let v = vars(&[("primary", "#ff0000")]);
    let e = generate_template("colors.tmpl", "bg = {{ secondary }}", &v).unwrap_err();
    assert_eq!(e.kind, ErrorKind::TemplateRender);
    assert!(e.message().starts_with("could not render template colors.tmpl: "));
}

#[test]
fn malformed_template_is_a_syntax_error() {
    let v = vars(&[]);
    let e = generate_template("bad.tmpl", "fg = {{ primary ", &v).unwrap_err();
    assert_eq!(e.kind, ErrorKind::TemplateSyntax);
    assert!(e.message().starts_with("could not compile template bad.tmpl: "));
}

#[test]
fn later_binding_wins() {
    let v = vars(&[("theme", "light"), ("theme", "dark")]);
    assert_eq!(generate_template("t", "{{ theme }}", &v).unwrap(), "dark");
}

#[test]
fn equality_predicate_selects_by_theme() {
    let v = vars(&[("theme", "dark")]);
    let src = "{% if theme | is_equal: \"dark\" %}black{% else %}white{% endif %}";
    assert_eq!(generate_template("t", src, &v).unwrap(), "black");
    let v = vars(&[("theme", "light")]);
    assert_eq!(generate_template("t", src, &v).unwrap(), "white");
}

#[test]
fn wallpaper_is_offered_to_templates() {
    let v = VarMap::for_wallpaper("/pics/wall.png".to_string());
    assert_eq!(generate_template("t", "{{ wallpaper }}", &v).unwrap(), "/pics/wall.png");
}
