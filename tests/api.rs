use elastic_types::api::{cat_indices, indices_exists_type, indices_stats};

#[test]
fn cat_indices_addresses() {
    assert_eq!(cat_indices::get("http://localhost:9200", ""), "http://localhost:9200/_cat/indices");
    assert_eq!(
        cat_indices::get_index("http://localhost:9200", "?v=true", "logs"),
        "http://localhost:9200/_cat/indices/logs?v=true"
    );
}

#[test]
fn type_exists_address() {
    assert_eq!(
        indices_exists_type::head_index_type("http://es", "", "logs", "event"),
        "http://es/logs/event"
    );
}

#[test]
fn stats_addresses() {
    assert_eq!(indices_stats::get("http://es", "?pretty"), "http://es/_stats?pretty");
    assert_eq!(indices_stats::get_metric("http://es", "", "docs"), "http://es/_stats/docs");
    assert_eq!(indices_stats::get_index("http://es", "", "logs"), "http://es/logs/_stats");
    assert_eq!(
        indices_stats::get_index_metric("http://es", "?level=shards", "logs", "store"),
        "http://es/logs/_stats/store?level=shards"
    );
}
