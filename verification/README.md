# dualoj_judge

The judge controller of DualOJ: it builds uploaded Dockerfile contexts into
images, runs a solver image against a judger image in a Kubernetes pod, binds
their streams, and reports how the judge ended.

`src/` holds the controller's logic, verified with Verus:

- `manifest`, `judge`, `jobs`: the pod and job objects the controller submits,
  as plain values with exact contracts;
- `pod`, `listener`: what is read of a pod, and the watch of the judge pod as a
  state machine that raises each signal at most once;
- `flow`: the life of one judge as a state machine, which cleans up once when
  it finishes (never before), reports the end at most once, and starts its
  time limit at most once, before it can run out;
- `judge_server`: the registry of judges waiting for their judger's report;
- `upload`, `buildctl`, `pack`: the upload protocol (chunks, size limit, name
  by content), the build command, and which paths of a build context the
  client's exclude patterns leave out;
- `id`, `registry`, `text`, `error`, `io_bind`, `watch`: identifiers, image
  locations and the smaller decisions.

`app/` drives the library against the cluster, the processes and the file
system. The gRPC wiring of the original needs its protocol definitions, which
are not part of this repository.
