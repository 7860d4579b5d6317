# app_forge_kit

Building blocks for small services, as a verified library:

- `config`: where the configuration file is read from, and how its path is resolved.
- `http_client`: the configuration of HTTP clients; the headers they compose, the URL a
  request goes to, the request built with its authentication, and the proxy the client
  goes through.
- `grpc_client`: the configuration of gRPC channels and the metadata added to every
  request.
- `http_server`, `grpc_server`: the servers' configuration, listen address, routes and
  errors.
- `service`: signals and their platform numbers, the lifecycle of the observed services,
  the loop that hands signals on, and how the results of the service's tasks are gathered.

`src/` is verified with Verus. `app/` holds what awaits or touches the operating system
(reading files, serving, connecting, installing signal handlers, the async loops, the
logging set-up and its macros), the serde copies of the configuration types, the
protocol-description macros of `tonic`, and the building of the gRPC server's reflection
service, whose types `tonic-reflection` does not name. Each calls
the decisions that `src/` proves.
