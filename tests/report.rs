use rotseq::report::form_report;

#[test]
fn empty_form_gives_empty_report() {
    assert_eq!(form_report(&Vec::new()), "");
}

#[test]
fn fields_are_reported_in_order() {
    let fields = vec![
        (String::from("title"), String::from("Hello")),
        (String::from("note"), String::from("")),
    ];
    assert_eq!(
        form_report(&fields),
        "title: Hello\n___________________\nnote: \n___________________\n"
    );
}
