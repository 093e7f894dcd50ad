use sdl_encoder::argument::FieldArgument;
use sdl_encoder::error::SdlError;
use sdl_encoder::field::Field;
use sdl_encoder::field_type::FieldType;

#[test]
fn it_encodes_simple_fields() {
    let ty_1 = FieldType::Named {
        name: "SpaceProgram".to_string(),
        default: None,
    };

    let ty_2 = FieldType::List { inner: Box::new(ty_1) };
    let ty_3 = FieldType::NonNull { inner: Box::new(ty_2) };
    let field = Field::new("spaceCat".to_string(), ty_3).unwrap();

    assert_eq!(field.render(), r#"  spaceCat: [SpaceProgram]!"#);
}

#[test]
fn it_encodes_fields_with_deprecation() {
    let ty_1 = FieldType::Named {
        name: "SpaceProgram".to_string(),
        default: None,
    };

    let ty_2 = FieldType::List { inner: Box::new(ty_1) };
    let mut field = Field::new("cat".to_string(), ty_2).unwrap();
    field.description(Some("Very good cats".to_string()));
    field.deprecated(Some("Cats are no longer sent to space.".to_string()));

    assert_eq!(
        field.render(),
        r#"  """
  Very good cats
  """
  cat: [SpaceProgram] @deprecated(reason: "Cats are no longer sent to space.")"#
    );
}

#[test]
fn it_encodes_fields_with_description() {
    let ty_1 = FieldType::Named {
        name: "SpaceProgram".to_string(),
        default: None,
    };

    let ty_2 = FieldType::NonNull { inner: Box::new(ty_1) };
    let ty_3 = FieldType::List { inner: Box::new(ty_2) };
    let ty_4 = FieldType::NonNull { inner: Box::new(ty_3) };
    let mut field = Field::new("spaceCat".to_string(), ty_4).unwrap();
    field.description(Some("Very good space cats".to_string()));

    assert_eq!(
        field.render(),
        r#"  """
  Very good space cats
  """
  spaceCat: [SpaceProgram!]!"#
    );
}

#[test]
fn it_encodes_fields_with_arguments() {
    let ty_1 = FieldType::Named {
        name: "SpaceProgram".to_string(),
        default: None,
    };

    let ty_2 = FieldType::NonNull { inner: Box::new(ty_1) };
    let ty_3 = FieldType::List { inner: Box::new(ty_2) };
    let ty_4 = FieldType::NonNull { inner: Box::new(ty_3) };
    let mut field = Field::new("spaceCat".to_string(), ty_4).unwrap();
    field.description(Some("Very good space cats".to_string()));

    let arg_1 = FieldType::Named {
        name: "SpaceProgram".to_string(),
        default: None,
    };

    let arg_2 = FieldType::List {
        inner: Box::new(arg_1),
    };
    let mut arg = FieldArgument::new("cat".to_string(), arg_2);
    arg.deprecated(Some("Cats are no longer sent to space.".to_string()));
    field.arg(arg).unwrap();

    assert_eq!(
        field.render(),
        r#"  """
  Very good space cats
  """
  spaceCat(cat: [SpaceProgram] @deprecated(reason: "Cats are no longer sent to space.")): [SpaceProgram!]!"#
    );
}

#[test]
fn plain_field_renders_with_indent_only() {
    let ty = FieldType::Named {
        name: "SpaceProgram".to_string(),
        default: None,
    };
    let field = Field::new("cat".to_string(), ty).unwrap();
    assert_eq!(field.render(), "  cat: SpaceProgram");
}

#[test]
fn deprecation_without_reason_has_no_parenthesis() {
    let ty = FieldType::Named {
        name: "SpaceProgram".to_string(),
        default: None,
    };
    let mut field = Field::new("cat".to_string(), ty).unwrap();
    field.deprecated(None);
    assert_eq!(field.render(), "  cat: SpaceProgram @deprecated");
}

#[test]
fn deprecation_with_reason_is_quoted_suffix() {
    let ty = FieldType::Named {
        name: "SpaceProgram".to_string(),
        default: None,
    };
    let mut field = Field::new("cat".to_string(), ty).unwrap();
    field.deprecated(Some("R".to_string()));
    assert_eq!(field.render(), "  cat: SpaceProgram @deprecated(reason: \"R\")");
}

#[test]
fn description_block_precedes_field_line() {
    let named = FieldType::Named {
        name: "SpaceProgram".to_string(),
        default: None,
    };
    let listed = FieldType::List {
        inner: Box::new(named),
    };
    let ty = FieldType::NonNull {
        inner: Box::new(listed),
    };
    let mut field = Field::new("spaceCat".to_string(), ty).unwrap();
    field.description(Some("Very good cats".to_string()));
    assert_eq!(
        field.render(),
        "  \"\"\"\n  Very good cats\n  \"\"\"\n  spaceCat: [SpaceProgram]!"
    );
}

#[test]
fn rendering_twice_is_byte_identical() {
    let ty = FieldType::List {
        inner: Box::new(FieldType::Named {
            name: "SpaceProgram".to_string(),
            default: None,
        }),
    };
    let mut field = Field::new("cat".to_string(), ty).unwrap();
    field.description(Some("Very good cats".to_string()));
    field.deprecated(Some("Cats are no longer sent to space.".to_string()));
    assert_eq!(field.render().into_bytes(), field.render().into_bytes());
}

#[test]
fn empty_field_name_is_rejected() {
    let ty = FieldType::Named {
        name: "SpaceProgram".to_string(),
        default: None,
    };
    assert_eq!(
        Field::new("".to_string(), ty),
        Err(SdlError::InvalidFieldDefinition)
    );
}

#[test]
fn malformed_field_name_is_rejected() {
    let ty = FieldType::Named {
        name: "SpaceProgram".to_string(),
        default: None,
    };
    assert_eq!(
        Field::new("9cats".to_string(), ty),
        Err(SdlError::InvalidFieldDefinition)
    );
}

#[test]
fn duplicate_argument_names_are_rejected() {
    let ty = FieldType::Named {
        name: "Query".to_string(),
        default: None,
    };
    let mut field = Field::new("spaceCat".to_string(), ty).unwrap();
    let arg_ty = |name: &str| FieldType::Named {
        name: name.to_string(),
        default: None,
    };
    field
        .arg(FieldArgument::new("cat".to_string(), arg_ty("String")))
        .unwrap();
    let second = field.arg(FieldArgument::new("cat".to_string(), arg_ty("Int")));
    assert_eq!(second, Err(SdlError::InvalidFieldDefinition));
    assert_eq!(field.render(), "  spaceCat(cat: String): Query");
}

#[test]
fn arguments_keep_insertion_order() {
    let ty = FieldType::Named {
        name: "Query".to_string(),
        default: None,
    };
    let mut field = Field::new("spaceCat".to_string(), ty).unwrap();
    let arg_ty = |name: &str| FieldType::Named {
        name: name.to_string(),
        default: None,
    };
    field
        .arg(FieldArgument::new("b".to_string(), arg_ty("String")))
        .unwrap();
    field
        .arg(FieldArgument::new("a".to_string(), arg_ty("Int")))
        .unwrap();
    assert_eq!(field.render(), "  spaceCat(b: String, a: Int): Query");
}

#[test]
fn reason_without_deprecation_flag_stays_silent() {
    let ty = FieldType::Named {
        name: "SpaceProgram".to_string(),
        default: None,
    };
    let field = Field {
        description: None,
        name: "cat".to_string(),
        type_: ty,
        deprecated: false,
        deprecation_reason: Some("R".to_string()),
        arguments: Vec::new(),
    };
    assert_eq!(field.render(), "  cat: SpaceProgram");
}
