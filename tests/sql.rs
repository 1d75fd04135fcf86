use outbox::sql::{
    create_publication_statement, create_slot_statement, create_table_statement,
    dead_messages_query, insert_statement, publication_exists_query,
    setup_plan, slot_exists_query, slot_position_query, start_position,
    start_replication_command, table_exists_query, update_ttl_statement, DbConfig,
    ReplicationConfig, SetupError, StartPositionError,
};

fn db_config() -> DbConfig {
    DbConfig {
        host: "localhost".into(),
        port: 5432,
        user: "postgres".into(),
        password: "password".into(),
        dbname: "postgres".into(),
    }
}

fn replication_config() -> ReplicationConfig {
    ReplicationConfig {
        table: "events".into(),
        publication: "events_pub".into(),
        replication_slot: "events_slot".into(),
    }
}

#[test]
fn connection_strings() {
    let c = db_config();
    assert_eq!(
        c.connection_string(false),
        "user=postgres password=password host=localhost port=5432 dbname=postgres"
    );
    assert_eq!(
        c.connection_string(true),
        "user=postgres password=password host=localhost port=5432 dbname=postgres replication=database"
    );
    let mut c = db_config();
    c.port = 0;
    assert!(c.connection_string(false).contains(" port=0 "));
    c.port = 65535;
    assert!(c.connection_string(false).contains(" port=65535 "));
}

#[test]
fn lsn_notation() {
    let r = replication_config();
    for (lsn, text) in [
        (0u64, "0/0"),
        (0x0000_0001_6B37_4D48, "1/6B374D48"),
        (0x0000_00AB_0000_000F, "AB/F"),
        (u64::MAX, "FFFFFFFF/FFFFFFFF"),
    ] {
        let command = start_replication_command(&r, lsn);
        assert!(command.contains(&format!(" LOGICAL {} (", text)), "{}", command);
        assert_eq!(start_position(&[Some(text.to_string())]), Ok(lsn));
    }
    assert_eq!(start_position(&[Some("16/B374D848".to_string())]), Ok(0x16_B374_D848));
    assert_eq!(start_position(&[Some("16B374D848".to_string())]), Err(StartPositionError::Malformed));
    assert_eq!(start_position(&[Some("x/1".to_string())]), Err(StartPositionError::Malformed));
}

#[test]
fn start_position_from_slot_rows() {
    assert_eq!(start_position(&[Some("0/16B3748".to_string())]), Ok(0x16B_3748));
    assert_eq!(start_position(&[]), Err(StartPositionError::NoRow));
    assert_eq!(start_position(&[None]), Err(StartPositionError::MissingPosition));
    assert_eq!(start_position(&[Some("junk".to_string())]), Err(StartPositionError::Malformed));
}

#[test]
fn replication_commands() {
    let r = replication_config();
    assert_eq!(
        slot_position_query("events_slot"),
        "SELECT confirmed_flush_lsn FROM pg_replication_slots WHERE slot_name = 'events_slot'"
    );
    assert_eq!(
        start_replication_command(&r, 0x1_0000_00AB),
        "START_REPLICATION SLOT events_slot LOGICAL 1/AB (\"proto_version\" '1', \"publication_names\" 'events_pub')"
    );
}

#[test]
fn outbox_statements() {
    assert_eq!(
        insert_statement("events"),
        "INSERT INTO events (id, agg_id, event_type, data, ttl) VALUES ($1, $2, $3, $4, $5)"
    );
    assert_eq!(update_ttl_statement("events"), "UPDATE events SET ttl = $2 WHERE id = $1");
    assert_eq!(dead_messages_query("events"), "SELECT id FROM events WHERE ttl <= 0");
    assert!(create_table_statement("events").starts_with("CREATE TABLE IF NOT EXISTS \"events\" (id UUID PRIMARY KEY"));
    assert_eq!(
        table_exists_query("events"),
        "SELECT * FROM pg_catalog.pg_tables WHERE pg_tables.tablename = 'events'"
    );
    assert_eq!(
        publication_exists_query("events_pub"),
        "SELECT * FROM pg_publication WHERE pubname = 'events_pub'"
    );
    assert_eq!(
        slot_exists_query("events_slot", "postgres"),
        "SELECT * FROM pg_replication_slots WHERE slot_name = 'events_slot' AND database = 'postgres'"
    );
}

#[test]
fn setup_creates_what_is_missing() {
    let r = replication_config();
    assert_eq!(setup_plan(&r, false, false, false), Err(SetupError::MissingTable));
    assert_eq!(setup_plan(&r, true, true, true), Ok(vec![]));
    assert_eq!(
        setup_plan(&r, true, false, false),
        Ok(vec![
            create_publication_statement("events_pub", "events"),
            create_slot_statement("events_slot"),
        ])
    );
    assert_eq!(
        create_publication_statement("events_pub", "events"),
        "CREATE PUBLICATION events_pub FOR TABLE \"events\" WITH (publish = 'insert, update')"
    );
    assert_eq!(
        create_slot_statement("events_slot"),
        "CREATE_REPLICATION_SLOT \"events_slot\" LOGICAL \"pgoutput\" NOEXPORT_SNAPSHOT"
    );
    assert_eq!(setup_plan(&r, true, true, false), Ok(vec![create_slot_statement("events_slot")]));
}
