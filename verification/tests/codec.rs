use cfn_picker::collection::{Resources, Stacks};
use cfn_picker::error::Error;
use cfn_picker::resource::Resource;
use cfn_picker::text::{join, split};

fn resource(physical_id: &str, resource_type: &str) -> Resource {
    Resource {
        resource_physical_id: physical_id.to_string(),
        resource_type: resource_type.to_string(),
    }
}

#[test]
fn resource_from_correct_string() -> Result<(), Error> {
    let resource_string = String::from("PutFunctionRole (AWS::IAM::Role)");
    let resource: Resource = resource_string.try_into()?;

    assert_eq!(resource.resource_physical_id, "PutFunctionRole");
    assert_eq!(resource.resource_type, "AWS::IAM::Role");

    Ok(())
}

#[test]
fn resource_from_malformed_string() {
    let malformed_string = String::from("foo");
    let resource: Result<Resource, Error> = malformed_string.try_into();

    assert_eq!(resource.is_err(), true);
}

#[test]
fn resources_to_string() {
    let resources_vec: Vec<Resource> = vec![
        Resource {
            resource_physical_id: "first_resource_physical_id".to_string(),
            resource_type: "first_resource_type".to_string(),
        },
        Resource {
            resource_physical_id: "second_resource_physical_id".to_string(),
            resource_type: "second_resource_type".to_string(),
        },
    ];

    let resources = Resources(resources_vec);
    let resources_string: String = resources.into();

    assert_eq!(
        resources_string,
        "first_resource_physical_id (first_resource_type)\nsecond_resource_physical_id (second_resource_type)"
    );
}

#[test]
fn encode_writes_id_then_type_in_parentheses() {
    assert_eq!(
        resource("my-func", "AWS::Lambda::Function").encode(),
        "my-func (AWS::Lambda::Function)"
    );
    let line: String = resource("b", "T").into();
    assert_eq!(line, "b (T)");
}

#[test]
fn decode_of_the_empty_line_fails() {
    assert_eq!(Resource::decode(""), Err(Error::MalformedRecord));
}

#[test]
fn decode_of_one_token_fails() {
    assert_eq!(Resource::decode("onlyonetoken"), Err(Error::MalformedRecord));
    assert_eq!(Resource::decode("(only)(one)token"), Err(Error::MalformedRecord));
    assert_eq!(Resource::try_from("()".to_string()), Err(Error::MalformedRecord));
}

#[test]
fn decode_ignores_what_follows_the_second_token() {
    assert_eq!(Resource::decode("id (type) extra stuff"), Ok(resource("id", "type")));
}

#[test]
fn decode_drops_every_parenthesis() {
    assert_eq!(Resource::decode("a(b) ((c)d)"), Ok(resource("ab", "cd")));
    assert_eq!(Resource::decode(")x( y"), Ok(resource("x", "y")));
}

#[test]
fn decode_cuts_at_single_spaces_only() {
    assert_eq!(Resource::decode("a\tb c"), Ok(resource("a\tb", "c")));
    assert_eq!(Resource::decode("a  b"), Ok(resource("a", "")));
    assert_eq!(Resource::decode(" x"), Ok(resource("", "x")));
    assert_eq!(Resource::decode(" "), Ok(resource("", "")));
}

#[test]
fn decode_reads_texts_beyond_ascii() {
    assert_eq!(Resource::decode("été (Größe::Ω)"), Ok(resource("été", "Größe::Ω")));
}

#[test]
fn a_type_with_a_space_does_not_come_back() {
    let written = resource("id", "My Type");
    let line = written.encode();
    assert_eq!(line, "id (My Type)");
    assert_eq!(Resource::decode(&line), Ok(resource("id", "My")));
}

#[test]
fn an_id_with_a_parenthesis_does_not_come_back() {
    let written = resource("a(1)", "T");
    assert_eq!(Resource::decode(&written.encode()), Ok(resource("a1", "T")));
}

#[test]
fn decode_of_encode_is_the_resource() {
    let cases = vec![
        resource("PutFunctionRole", "AWS::IAM::Role"),
        resource("my-func", "AWS::Lambda::Function"),
        resource("arn:aws:s3:::bucket/key", "AWS::S3::Bucket"),
        resource("x", "y"),
        resource("", ""),
    ];
    for case in cases {
        assert_eq!(Resource::decode(&case.encode()), Ok(case.clone()));
        assert_eq!(Resource::try_from(case.encode()), Ok(case));
    }
}

#[test]
fn clone_is_equal() {
    let written = resource("id", "type");
    assert_eq!(written.clone(), written);
}

#[test]
fn a_listing_clones_to_its_equal() {
    let listing = Resources(vec![resource("b", "T"), resource("a", "U")]);
    let copy = listing.clone();
    assert_eq!(copy, listing);
    assert_eq!(copy.encode(), "b (T)\na (U)");
    assert_eq!(Resources(vec![]).clone(), Resources(vec![]));
}

#[test]
fn a_resource_is_made_of_two_texts_that_are_not_empty() {
    assert_eq!(
        Resource::new("my-func".to_string(), "Lambda::Function".to_string()),
        Some(resource("my-func", "Lambda::Function"))
    );
    assert_eq!(Resource::new("".to_string(), "T".to_string()), None);
    assert_eq!(Resource::new("id".to_string(), "".to_string()), None);
    assert_eq!(Resource::new("".to_string(), "".to_string()), None);
    assert_eq!(Resource::new(" ".to_string(), "(".to_string()), Some(resource(" ", "(")));
}

#[test]
fn stacks_are_joined_by_newlines() {
    let stacks = Stacks(vec!["prod-api".to_string(), "staging".to_string(), "dev".to_string()]);
    assert_eq!(stacks.encode(), "prod-api\nstaging\ndev");
    let block: String = stacks.into();
    assert_eq!(block, "prod-api\nstaging\ndev");
}

#[test]
fn one_stack_has_no_newline() {
    assert_eq!(Stacks(vec!["prod-api".to_string()]).encode(), "prod-api");
}

#[test]
fn empty_listings_encode_to_the_empty_block() {
    assert_eq!(Stacks(vec![]).encode(), "");
    assert_eq!(Resources(vec![]).encode(), "");
    assert_eq!(Resources::from_iter(vec![]).encode(), "");
}

#[test]
fn from_iter_keeps_the_order() {
    let listing = Resources::from_iter(vec![resource("b", "T"), resource("a", "U")]);
    assert_eq!(listing, Resources(vec![resource("b", "T"), resource("a", "U")]));
    assert_eq!(listing.encode(), "b (T)\na (U)");
}

#[test]
fn a_block_is_read_back_line_by_line_in_order() {
    let a = resource("PutFunctionRole", "AWS::IAM::Role");
    let b = resource("my-func", "AWS::Lambda::Function");
    let c = resource("orders", "AWS::DynamoDB::Table");
    let block = Resources(vec![a.clone(), b.clone(), c.clone()]).encode();
    let lines = split(&block, '\n');
    assert_eq!(lines.len(), 3);
    let read: Vec<Resource> = lines.iter().map(|line| Resource::decode(line).unwrap()).collect();
    assert_eq!(read, vec![a, b, c]);
}

#[test]
fn split_cuts_at_every_separator() {
    assert_eq!(split("a b", ' '), vec!["a", "b"]);
    assert_eq!(split("a b c", ' '), vec!["a", "b", "c"]);
    assert_eq!(split("a  b", ' '), vec!["a", "", "b"]);
    assert_eq!(split(" a ", ' '), vec!["", "a", ""]);
    assert_eq!(split("a,b c", ','), vec!["a", "b c"]);
}

#[test]
fn split_without_separator_is_one_piece() {
    assert_eq!(split("", ' '), vec![""]);
    assert_eq!(split("abc", ' '), vec!["abc"]);
}

#[test]
fn split_counts_characters_not_bytes() {
    assert_eq!(split("é ü", ' '), vec!["é", "ü"]);
    assert_eq!(split("日本 語", ' '), vec!["日本", "語"]);
    assert_eq!(split("aéb", 'é'), vec!["a", "b"]);
}

#[test]
fn join_puts_the_separator_between_neighbours() {
    let parts = vec!["a".to_string(), "b".to_string(), "c".to_string()];
    assert_eq!(join(&parts, "\n"), "a\nb\nc");
    assert_eq!(join(&parts, ", "), "a, b, c");
    assert_eq!(join(&parts, ""), "abc");
    assert_eq!(join(&vec!["a".to_string()], "\n"), "a");
    assert_eq!(join(&vec![], "\n"), "");
    assert_eq!(join(&vec!["".to_string(), "".to_string()], "-"), "-");
}

#[test]
fn split_undoes_join_and_join_undoes_split() {
    let parts = vec!["a".to_string(), "".to_string(), "b c".to_string()];
    assert_eq!(split(&join(&parts, "\n"), '\n'), parts);
    let text = " one  two ";
    assert_eq!(join(&split(text, ' '), " "), text);
}
