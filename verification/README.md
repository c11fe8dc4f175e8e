# pistachio_client

The verified core of the Pistachio admin API clients (HTTP/OpenAPI and gRPC):
how failed calls are classified into errors, and how request bodies are built
from domain values and responses read back into them. Every function in `src/`
carries a contract. Verus proves them all except those of the functions marked
`#[verifier::external_body]`, which call into std, `chrono`, `serde_json`,
`tonic` and `tonic-types` and whose contracts are trusted, not proved:

- `src/text.rs`: `strip_prefix`, `strip_suffix`, `str_eq`, `push_char`;
- `src/status.rs`: `code_number`, `status_code_number`, `status_message`,
  `status_error_details`, `error_info_parts`;
- `src/timestamp.rs`: `parse_rfc3339`, `utc_from_timestamp`, `utc_from_unix_seconds`,
  `format_rfc3339`, `utc_now`;
- `src/json.rs`: `json_as_str`, `json_as_i64`, `json_object_entries`, `json_string`.

The results of some of these are named by specification functions without a
body (`rfc3339_instant`, `rfc3339_text`, `status_code_of`, `status_message_of`,
`status_details_of`, `error_info_of`, `code_number_of`, `json_text_of`,
`json_i64_of`, `json_object_of`, `json_string_value`).

## Layout

- `src/problem.rs`: RFC 7807 Problem Details and the error details read from them.
- `src/http_error.rs`, `src/operations.rs`: classification of failed HTTP calls, and
  the rules each operation applies (404, 409, bodies of no known shape).
- `src/status.rs`, `src/grpc_error.rs`: the same for gRPC statuses and their
  `ErrorInfo` details.
- `src/convert.rs`: reading domain values, lists and pages from wire models.
- `src/project.rs`, `src/app.rs`, `src/user.rs`, `src/service_account.rs`,
  `src/auth_provider.rs`, `src/api_key.rs`, `src/token.rs`, `src/usage.rs`,
  `src/pagination.rs`: the resources of the API.
- `src/json.rs`: JSON values and what is read of them.
- `src/timestamp.rs`, `src/text.rs`, `src/lists.rs`, `src/string_map.rs`: instants,
  text, lists and maps with their specifications.
- `src/client.rs`: the connection state of the client.
- `src/laws.rs`: properties that span several functions.
- `app/`: serde decoding of Problem Details bodies and the protobuf struct values
  of custom claims.
- `tests/`: tests on concrete values.

## Scope

Identifiers, names, emails, phone numbers and photo URLs in responses are kept
as the text the server sent; the library does not check their syntax. Tenant
resource names are checked for the shape `projects/{project}/tenants/{tenant}`
only.
