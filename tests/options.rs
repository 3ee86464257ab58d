//! The options fragment.
use rds_query::builder::options::build_options;
use rds_query::parser::parsed::QueryOptions;

#[test]
fn test_build_options() {
  let options = QueryOptions {
    order_by: Some({
      let mut order_by = Vec::new();
      order_by.push(("fieldName".to_string(), "asc".to_string()));
      order_by
    }),
    limit: Some("10".to_string()),
    offset: Some("5".to_string()),
    num_of_rows: Some(100),
    includes: None,
    group_by: Some(vec!["column1".to_string(), "column2".to_string()]),
  };

  let result = build_options(options);
  assert!(result.is_ok());

  let generated_sql = result.unwrap();
  assert_eq!(
    generated_sql,
    "ORDER BY field_name ASC LIMIT 10 OFFSET 5 GROUP BY column1, column2"
  );
}

#[test]
fn test_build_options_with_empty_group_by() {
  let options = QueryOptions {
    order_by: Some({
      let mut order_by = Vec::new();
      order_by.push(("fieldName".to_string(), "asc".to_string()));
      order_by
    }),
    limit: Some("10".to_string()),
    offset: Some("5".to_string()),
    num_of_rows: Some(100),
    includes: None,
    group_by: Some(vec![]),
  };

  let result = build_options(options);
  assert!(result.is_ok());

  let generated_sql = result.unwrap();
  assert_eq!(generated_sql, "ORDER BY field_name ASC LIMIT 10 OFFSET 5");
}
