use jsgen::module::block::{Statement, VarType};
use jsgen::module::Dependency;

#[test]
fn test_import_macro() {
    let import =
        Dependency::new(vec!["foo".to_string(), "bar".to_string(), "baz".to_string()], "qux");
    assert_eq!(
        import,
        Dependency::new(vec!["foo".to_string(), "bar".to_string(), "baz".to_string()], "qux")
    );

    let import = Dependency::new(vec!["foo".to_string()], "bar");
    assert_eq!(import, Dependency::new(vec!["foo".to_string()], "bar"));
}

#[test]
fn test_var_macro() {
    let var = Statement::VarDecl {
        var_type: VarType::Let,
        name: "foo".to_string(),
        initializer: Some(Box::new(42.into())),
    };
    assert_eq!(
        var,
        Statement::VarDecl {
            var_type: VarType::Let,
            name: "foo".to_string(),
            initializer: Some(Box::new(42.into())),
        }
    );

    let var = Statement::VarDecl {
        var_type: VarType::Let,
        name: "foo".to_string(),
        initializer: None,
    };
    assert_eq!(
        var,
        Statement::VarDecl {
            var_type: VarType::Let,
            name: "foo".to_string(),
            initializer: None,
        }
    );

    let var = Statement::VarDecl {
        var_type: VarType::Const,
        name: "foo".to_string(),
        initializer: Some(Box::new(42.into())),
    };
    assert_eq!(
        var,
        Statement::VarDecl {
            var_type: VarType::Const,
            name: "foo".to_string(),
            initializer: Some(Box::new(42.into())),
        }
    );

    let var = Statement::VarDecl {
        var_type: VarType::Var,
        name: "foo".to_string(),
        initializer: Some(Box::new(42.into())),
    };
    assert_eq!(
        var,
        Statement::VarDecl {
            var_type: VarType::Var,
            name: "foo".to_string(),
            initializer: Some(Box::new(42.into())),
        }
    );

    let var = Statement::VarDecl {
        var_type: VarType::Var,
        name: "foo".to_string(),
        initializer: None,
    };
    assert_eq!(
        var,
        Statement::VarDecl {
            var_type: VarType::Var,
            name: "foo".to_string(),
            initializer: None,
        }
    );
}

#[test]
fn test_binary_macro() {
    let binary = Statement::Binary {
        left: Box::new(1.into()),
        operator: "+".to_string(),
        right: Box::new(2.into()),
    };
    assert_eq!(
        binary,
        Statement::Binary {
            left: Box::new(1.into()),
            operator: "+".to_string(),
            right: Box::new(2.into()),
        }
    );
}

#[test]
fn declaration_with_integer_initializer_renders() {
    let var = Statement::VarDecl {
        var_type: VarType::Let,
        name: "foo".to_string(),
        initializer: Some(Box::new(42.into())),
    };
    assert_eq!(var.generate(), "let foo = 42");
}

#[test]
fn expression_of_integers_renders() {
    let binary = Statement::Binary {
        left: Box::new(1.into()),
        operator: "+".to_string(),
        right: Box::new(2.into()),
    };
    assert_eq!(binary.generate(), "(1 + 2)");
}

#[test]
fn dependency_holds_what_it_was_given() {
    let import = Dependency::new(vec!["foo".to_string(), "bar".to_string()], "qux");
    assert_eq!(import.imports, vec!["foo".to_string(), "bar".to_string()]);
    assert_eq!(import.path, "qux");
    assert_eq!(import.clone(), import);
}
