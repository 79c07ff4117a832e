use polars_warning::{warning_line, PolarsWarning};

const ALL: [PolarsWarning; 3] = [
    PolarsWarning::UserWarning,
    PolarsWarning::CategoricalRemappingWarning,
    PolarsWarning::MapWithoutReturnDtypeWarning,
];

#[test]
fn line_of_a_formatted_user_warning() {
    let message = format!("x={}", 1);
    assert_eq!(
        warning_line(&message, PolarsWarning::UserWarning),
        "UserWarning: x=1"
    );
}

#[test]
fn line_of_each_category() {
    assert_eq!(
        warning_line("m", PolarsWarning::UserWarning),
        "UserWarning: m"
    );
    assert_eq!(
        warning_line("m", PolarsWarning::CategoricalRemappingWarning),
        "CategoricalRemappingWarning: m"
    );
    assert_eq!(
        warning_line("m", PolarsWarning::MapWithoutReturnDtypeWarning),
        "MapWithoutReturnDtypeWarning: m"
    );
}

#[test]
fn line_begins_with_the_name_then_colon_space_message() {
    for category in ALL {
        let line = warning_line("m", category);
        let name = category.debug_name();
        assert!(line.starts_with(name));
        assert_eq!(&line[name.len()..], ": m");
    }
}

#[test]
fn line_of_an_empty_message() {
    assert_eq!(warning_line("", PolarsWarning::UserWarning), "UserWarning: ");
}

#[test]
fn line_keeps_the_message_as_it_is() {
    let message = "a: b\n{} \u{e9}";
    assert_eq!(
        warning_line(message, PolarsWarning::CategoricalRemappingWarning),
        format!("CategoricalRemappingWarning: {}", message)
    );
}

#[test]
fn line_is_the_debug_form_then_the_message() {
    for category in ALL {
        assert_eq!(
            warning_line("dtype", category),
            format!("{:?}: {}", category, "dtype")
        );
    }
}

#[test]
fn debug_name_is_the_derived_debug_form() {
    for category in ALL {
        assert_eq!(category.debug_name(), format!("{:?}", category));
    }
}

#[test]
fn debug_names_are_exact() {
    assert_eq!(PolarsWarning::UserWarning.debug_name(), "UserWarning");
    assert_eq!(
        PolarsWarning::CategoricalRemappingWarning.debug_name(),
        "CategoricalRemappingWarning"
    );
    assert_eq!(
        PolarsWarning::MapWithoutReturnDtypeWarning.debug_name(),
        "MapWithoutReturnDtypeWarning"
    );
}

#[test]
fn debug_names_differ() {
    for a in ALL {
        for b in ALL {
            assert_eq!(a.debug_name() == b.debug_name(), a == b);
        }
    }
}

#[test]
fn lines_of_one_message_differ_by_category() {
    for a in ALL {
        for b in ALL {
            assert_eq!(warning_line("m", a) == warning_line("m", b), a == b);
        }
    }
}

#[test]
fn default_category_is_user_warning() {
    assert_eq!(PolarsWarning::default(), PolarsWarning::UserWarning);
}
