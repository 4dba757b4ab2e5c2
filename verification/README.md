# aws_kinesis_firehose

An HTTP source for AWS Kinesis Firehose. Its rules are a library verified with Verus, under
`src/`; `app/` puts a `warp` server and a TOML configuration around it.

| module        | what it holds                                                              |
| ------------- | -------------------------------------------------------------------------- |
| `compression` | the compression schemes of records, and their names                        |
| `codec`       | base64 and gzip, by the `base64` and `flate2` crates: all that is trusted   |
| `record`      | records: decoding, encoding, and what each scheme makes of their bytes      |
| `config`      | the configuration, and what follows from it alone                           |
| `settings`    | the configuration as it is written down, with its defaults                  |
| `service`     | what a running source holds requests to: access key, content encoding       |
| `exchange`    | one request from its records to its answer                                  |
| `reply`       | answers and their status codes                                              |

A request is let in or answered by `Service::receive`, taken up by `Service::open`, and worked on
with `Exchange::next` and `Exchange::settle` until there is an answer. The proof functions whose
names begin with `law_` say what holds of that as a whole.
