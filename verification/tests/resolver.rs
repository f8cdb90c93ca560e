use cfn_picker::error::Error;
use cfn_picker::resolver::{find_template, templates, PathTemplate};
use cfn_picker::resource::Resource;

fn resource(physical_id: &str, resource_type: &str) -> Resource {
    Resource {
        resource_physical_id: physical_id.to_string(),
        resource_type: resource_type.to_string(),
    }
}

#[test]
fn a_function_resolves_to_its_code_tab() {
    assert_eq!(
        resource("fn1", "AWS::Lambda::Function").to_console_url_path("stack"),
        Ok("lambda/home#/functions/fn1?tab=code".to_string())
    );
}

#[test]
fn a_function_resolves_by_its_short_tag_too() {
    assert_eq!(
        resource("my-func", "Lambda::Function").to_console_url_path("prod-api"),
        Ok("lambda/home#/functions/my-func?tab=code".to_string())
    );
    assert_eq!(
        resource("fn1", "Lambda::Function").to_console_url_path("stack"),
        resource("fn1", "AWS::Lambda::Function").to_console_url_path("stack")
    );
}

#[test]
fn a_bucket_resolves_to_its_objects_tab() {
    assert_eq!(
        resource("fn1", "AWS::S3::Bucket").to_console_url_path("stack"),
        Ok("s3/buckets/fn1?tab=objects".to_string())
    );
}

#[test]
fn a_table_resolves_by_its_name() {
    assert_eq!(
        resource("fn1", "AWS::DynamoDB::Table").to_console_url_path("stack"),
        Ok("dynamodbv2/home#table?name=fn1".to_string())
    );
}

#[test]
fn an_unknown_type_is_unmapped() {
    assert_eq!(
        resource("fn1", "some.unknown.Type").to_console_url_path("stack"),
        Err(Error::UnmappedResourceType("some.unknown.Type".to_string()))
    );
    assert_eq!(
        resource("PutFunctionRole", "AWS::IAM::Role").to_console_url_path("stack"),
        Err(Error::UnmappedResourceType("AWS::IAM::Role".to_string()))
    );
    assert_eq!(
        resource("PutFunctionRole", "IAM::Role").to_console_url_path("prod-api"),
        Err(Error::UnmappedResourceType("IAM::Role".to_string()))
    );
}

#[test]
fn the_type_is_matched_exactly() {
    for near in [
        "AWS::Lambda::Function ",
        " AWS::Lambda::Function",
        "aws::lambda::function",
        "AWS::Lambda",
        "AWS::Lambda::Function::Version",
        "Lambda::Function ",
        "lambda::function",
        "Function",
        "S3::Bucket",
        "",
    ] {
        assert_eq!(
            resource("fn1", near).to_console_url_path("stack"),
            Err(Error::UnmappedResourceType(near.to_string()))
        );
    }
}

#[test]
fn the_stack_name_plays_no_part() {
    let bucket = resource("assets", "AWS::S3::Bucket");
    assert_eq!(bucket.to_console_url_path(""), bucket.to_console_url_path("prod-api"));
}

#[test]
fn the_physical_id_is_put_in_as_it_is() {
    assert_eq!(
        resource("", "AWS::S3::Bucket").to_console_url_path("stack"),
        Ok("s3/buckets/?tab=objects".to_string())
    );
    assert_eq!(
        resource("a/b?c", "AWS::DynamoDB::Table").to_console_url_path("stack"),
        Ok("dynamodbv2/home#table?name=a/b?c".to_string())
    );
}

#[test]
fn the_table_holds_four_types() {
    let table = templates();
    let types: Vec<&str> = table.iter().map(|entry| entry.resource_type.as_str()).collect();
    assert_eq!(
        types,
        vec!["AWS::Lambda::Function", "Lambda::Function", "AWS::S3::Bucket", "AWS::DynamoDB::Table"]
    );
}

#[test]
fn every_entry_is_found_by_its_own_type() {
    let table = templates();
    for entry in table.iter() {
        assert_eq!(find_template(&table, &entry.resource_type), Some(entry));
    }
    assert_eq!(find_template(&table, &"AWS::IAM::Role".to_string()), None);
}

#[test]
fn the_first_of_two_entries_for_a_type_wins() {
    let table = vec![
        PathTemplate::new("T", "first/", ""),
        PathTemplate::new("U", "other/", ""),
        PathTemplate::new("T", "second/", ""),
    ];
    let found = find_template(&table, &"T".to_string()).unwrap();
    assert_eq!(found.render("x"), "first/x");
    assert_eq!(find_template(&Vec::new(), &"T".to_string()), None);
}

#[test]
fn a_template_renders_prefix_id_suffix() {
    let template = PathTemplate::new("T", "before/", "/after");
    assert_eq!(template.resource_type, "T");
    assert_eq!(template.render("id"), "before/id/after");
    assert_eq!(template.render(""), "before//after");
}

#[test]
fn every_error_has_its_message() {
    assert_eq!(Error::FetchFailed("connection reset".to_string()).message(), "connection reset");
    assert_eq!(Error::NoOptions.message(), "There is nothing to pick from");
    assert_eq!(Error::SelectionAborted.message(), "You have to pick an option");
    assert_eq!(Error::MalformedRecord.message(), "Malformed resource str");
    assert_eq!(
        Error::UnmappedResourceType("AWS::IAM::Role".to_string()).message(),
        "Not mapped: AWS::IAM::Role"
    );
}

#[test]
fn an_error_clones_to_its_equal() {
    for error in [
        Error::FetchFailed("x".to_string()),
        Error::NoOptions,
        Error::SelectionAborted,
        Error::MalformedRecord,
        Error::UnmappedResourceType("T".to_string()),
    ] {
        assert_eq!(error.clone(), error);
    }
}
